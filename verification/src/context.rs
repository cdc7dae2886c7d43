//! The traversal context, as far as helper loading depends on it.
//!
//! The context is an opaque value of the traversal framework. What the
//! contracts of this crate need from it is named below: how many symbols and
//! references its tables hold, what they hold of a symbol and of a reference,
//! what a name means in the current scope, which name a new binding gets, and
//! whether the tables fit together. The functions of this module are the only
//! ones that touch the context, and their contracts are taken on trust from
//! the framework's source.

use crate::ast::{expression_parts, identifier_reference_parts, IdentifierReferenceParts};
use oxc_ast::ast::{Expression, IdentifierReference};
use oxc_index::Idx;
use oxc_semantic::{ReferenceFlags, SymbolFlags, SymbolId};
use oxc_span::{Atom, Span, SPAN};
use oxc_traverse::{BoundIdentifier, TraverseCtx};
use vstd::prelude::*;

verus! {

#[verifier::external_type_specification]
#[verifier::external_body]
pub struct ExTraverseCtx<'a>(TraverseCtx<'a>);

#[verifier::external_type_specification]
#[verifier::external_body]
pub struct ExExpression<'a>(Expression<'a>);

#[verifier::external_type_specification]
#[verifier::external_body]
pub struct ExIdentifierReference<'a>(IdentifierReference<'a>);

#[verifier::external_type_specification]
#[verifier::external_body]
pub struct ExSymbolFlags(SymbolFlags);

#[verifier::external_type_specification]
#[verifier::external_body]
pub struct ExReferenceFlags(ReferenceFlags);

#[verifier::external_type_specification]
#[verifier::external_body]
pub struct ExSpan(Span);

/// The number of symbols in the symbol table of the context, which is what
/// `ctx.symbols().len()` returns. A symbol id is valid in the context when it
/// is below this count.
pub uninterp spec fn symbol_count(ctx: TraverseCtx) -> nat;

/// The number of references in the symbol table of the context, which is what
/// `ctx.symbols().references.len()` returns.
pub uninterp spec fn reference_count(ctx: TraverseCtx) -> nat;

/// The symbol that the reference with the given index is bound to, which is
/// what `ctx.symbols().references[index].symbol_id()` returns: none for a
/// reference that is not resolved.
pub uninterp spec fn reference_symbol(ctx: TraverseCtx, index: nat) -> Option<nat>;

/// The flags of the reference with the given index, which is what
/// `ctx.symbols().references[index].flags()` returns.
pub uninterp spec fn reference_flags(ctx: TraverseCtx, index: nat) -> ReferenceFlags;

/// The bits of reference flags, which is what `flags.bits()` returns.
pub uninterp spec fn reference_flag_bits(flags: ReferenceFlags) -> u8;

/// The flags of the symbol with the given id, which is what
/// `ctx.symbols().get_flags(id)` returns.
pub uninterp spec fn symbol_flags(ctx: TraverseCtx, symbol: nat) -> SymbolFlags;

/// The bits of symbol flags, which is what `flags.bits()` returns.
pub uninterp spec fn symbol_flag_bits(flags: SymbolFlags) -> u32;

/// Whether the symbol with the given id is declared in the root scope, which
/// is whether `ctx.symbols().get_scope_id(id)` is
/// `ctx.scopes().root_scope_id()`.
pub uninterp spec fn symbol_in_root_scope(ctx: TraverseCtx, symbol: nat) -> bool;

/// The name that the context makes up for a new binding seeded with `seed`,
/// which is what `ctx.generate_uid_name(seed)` returns: the seed without
/// leading underscores and trailing digits, behind one underscore and, where
/// that name is taken, before the first number that makes it free.
pub uninterp spec fn uid_name(ctx: TraverseCtx, seed: Seq<char>) -> Seq<char>;

/// The start and the end of a span, which is what its fields `start` and
/// `end` hold.
pub uninterp spec fn span_bounds(span: Span) -> (u32, u32);

/// The symbol that `name` means in the current scope of the context, which is
/// what `ctx.scopes().find_binding(ctx.current_scope_id(), name)` returns: the
/// binding of the nearest enclosing scope that declares the name, if any
/// does.
pub uninterp spec fn visible_binding(ctx: TraverseCtx, name: Seq<char>) -> Option<nat>;

/// Whether the scope tree and the symbol table of the context describe one
/// program, as semantic analysis leaves them and a traversal keeps them: the
/// tree has a root scope, the current scope and the parent of every scope lie
/// in the tree and lead to the root, the columns of the symbol table have one
/// length, no table holds more entries than its ids can number, and every
/// binding of the tree is a symbol of the table.
pub uninterp spec fn scoping_consistent(ctx: TraverseCtx) -> bool;

/// The bits of `ReferenceFlags::Read`.
pub const READ_BITS: u8 = 1;

/// The bits of `SymbolFlags::Import`.
pub const IMPORT_BITS: u32 = 256;

/// Whether the span is the empty span at the start of the text, which nodes
/// carry that stand for no text of the program.
pub open spec fn is_dummy_span(span: Span) -> bool {
    span_bounds(span) == (0u32, 0u32)
}

/// Whether the reference with the given index reads its symbol as a value
/// and does nothing else with it.
pub open spec fn is_read_reference(ctx: TraverseCtx, index: nat) -> bool {
    reference_flag_bits(reference_flags(ctx, index)) == READ_BITS
}

/// Whether the symbol with the given id is what an import declaration binds:
/// flagged as an import and nothing else, and declared in the root scope.
pub open spec fn is_import_binding(ctx: TraverseCtx, symbol: nat) -> bool {
    &&& symbol_flag_bits(symbol_flags(ctx, symbol)) == IMPORT_BITS
    &&& symbol_in_root_scope(ctx, symbol)
}

/// Whether the context `after` is the context `before` with `symbols` symbols
/// and `references` references appended to its tables: the symbols and the
/// references that were there are as they were.
pub open spec fn context_grew(
    before: TraverseCtx,
    after: TraverseCtx,
    symbols: nat,
    references: nat,
) -> bool {
    &&& symbol_count(after) == symbol_count(before) + symbols
    &&& reference_count(after) == reference_count(before) + references
    &&& forall|index: nat|
        index < reference_count(before) ==> #[trigger] reference_symbol(after, index)
            == reference_symbol(before, index)
    &&& forall|index: nat|
        index < reference_count(before) ==> #[trigger] reference_flags(after, index)
            == reference_flags(before, index)
    &&& forall|symbol: nat|
        symbol < symbol_count(before) ==> #[trigger] symbol_flags(after, symbol) == symbol_flags(
            before,
            symbol,
        )
    &&& forall|symbol: nat|
        symbol < symbol_count(before) ==> #[trigger] symbol_in_root_scope(after, symbol)
            == symbol_in_root_scope(before, symbol)
}

/// Whether every name means in the context `after` what it means in the
/// context `before`.
pub open spec fn bindings_kept(before: TraverseCtx, after: TraverseCtx) -> bool {
    forall|name: Seq<char>| #[trigger]
        visible_binding(after, name) == visible_binding(before, name)
}

/// A symbol id as the model has it.
pub open spec fn symbol_of(symbol_id: Option<u32>) -> Option<nat> {
    match symbol_id {
        Some(id) => Some(id as nat),
        None => None,
    }
}

/// A binding of the program: the name of an identifier and the symbol that it
/// declares.
#[derive(Clone, Copy, Debug)]
pub struct LocalBinding<'a> {
    pub name: &'a str,
    pub symbol_id: u32,
}

/// The mathematical content of a [`LocalBinding`].
pub ghost struct LocalBindingView {
    pub name: Seq<char>,
    pub symbol_id: nat,
}

impl<'a> View for LocalBinding<'a> {
    type V = LocalBindingView;

    open spec fn view(&self) -> LocalBindingView {
        LocalBindingView { name: self.name@, symbol_id: self.symbol_id as nat }
    }
}

/// The constant `oxc_span::SPAN`, the empty span that generated nodes carry:
/// it starts and ends at 0.
#[verifier::external_body]
pub(crate) fn dummy_span() -> (span: Span)
    ensures
        span_bounds(span) == (0u32, 0u32),
{
    SPAN
}

/// The constant `SymbolFlags::Import`, the flag of a symbol that an import
/// declaration binds: bit 8 and no other.
#[verifier::external_body]
pub(crate) fn import_symbol_flags() -> (flags: SymbolFlags)
    ensures
        symbol_flag_bits(flags) == IMPORT_BITS,
{
    SymbolFlags::Import
}

/// The constant `ReferenceFlags::Read`, the flag of a reference that reads
/// its symbol as a value: bit 0 and no other.
#[verifier::external_body]
pub(crate) fn read_reference_flags() -> (flags: ReferenceFlags)
    ensures
        reference_flag_bits(flags) == READ_BITS,
{
    ReferenceFlags::Read
}

/// `SymbolTable::len` on the symbol table of the context: the number of its
/// symbols.
#[verifier::external_body]
pub(crate) fn symbols_len<'a>(ctx: &TraverseCtx<'a>) -> (count: usize)
    ensures
        count == symbol_count(*ctx),
{
    ctx.symbols().len()
}

/// `len` on the table of references of the symbol table of the context: the
/// number of its references.
#[verifier::external_body]
pub(crate) fn references_len<'a>(ctx: &TraverseCtx<'a>) -> (count: usize)
    ensures
        count == reference_count(*ctx),
{
    ctx.symbols().references.len()
}

/// `TraverseCtx::generate_uid_in_root_scope`: makes up an identifier name
/// derived from `name`, declares it in the root scope as a new symbol with
/// the given flags, and returns name and symbol.
///
/// Taken on trust: the name is the one that the context makes up for the
/// seed; the symbol is appended to the symbol table, so its id is the count
/// of symbols before the call and the count grows by one; the symbol has the
/// given flags and is declared in the root scope; no other symbol and no
/// reference is created or changed; every other name means what it meant; a
/// consistent context stays consistent. The call indexes the root scope and
/// pushes onto a table of at most `u32::MAX` entries, hence the two
/// preconditions.
#[verifier::external_body]
pub(crate) fn generate_uid_in_root_scope<'a>(
    ctx: &mut TraverseCtx<'a>,
    name: &str,
    flags: SymbolFlags,
) -> (binding: LocalBinding<'a>)
    requires
        scoping_consistent(*old(ctx)),
        symbol_count(*old(ctx)) < u32::MAX,
    ensures
        binding.name@ == uid_name(*old(ctx), name@),
        binding.symbol_id == symbol_count(*old(ctx)),
        symbol_flags(*final(ctx), symbol_count(*old(ctx))) == flags,
        symbol_in_root_scope(*final(ctx), symbol_count(*old(ctx))),
        scoping_consistent(*final(ctx)),
        context_grew(*old(ctx), *final(ctx), 1, 0),
        forall|other: Seq<char>|
            other != binding.name@ ==> #[trigger] visible_binding(*final(ctx), other)
                == visible_binding(*old(ctx), other),
{
    let uid = ctx.generate_uid_in_root_scope(name, flags);
    LocalBinding { name: uid.name.as_str(), symbol_id: uid.symbol_id.index() as u32 }
}

/// `BoundIdentifier::create_read_expression`: registers a new reference that
/// reads the binding's symbol and returns an identifier expression that
/// carries the binding's name and that reference.
///
/// Taken on trust: exactly one reference is appended to the table of
/// references, and it is a read bound to the binding's symbol; the expression
/// is an identifier with the empty span, the binding's name and that
/// reference; no symbol is added, no other reference is changed, every name
/// means what it meant, and a consistent context stays consistent. The call
/// indexes the symbol table by the binding's symbol and pushes onto a table
/// of at most `u32::MAX` entries, hence the preconditions.
#[verifier::external_body]
pub(crate) fn create_read_expression<'a>(
    binding: &LocalBinding<'a>,
    ctx: &mut TraverseCtx<'a>,
) -> (expr: Expression<'a>)
    requires
        scoping_consistent(*old(ctx)),
        binding.symbol_id < symbol_count(*old(ctx)),
        reference_count(*old(ctx)) < u32::MAX,
    ensures
        expression_parts(expr) is Identifier,
        is_dummy_span(identifier_reference_parts(expression_parts(expr)->Identifier_0).span),
        identifier_reference_parts(expression_parts(expr)->Identifier_0).name == binding.name@,
        identifier_reference_parts(expression_parts(expr)->Identifier_0).reference == Some(
            reference_count(*old(ctx)),
        ),
        scoping_consistent(*final(ctx)),
        context_grew(*old(ctx), *final(ctx), 0, 1),
        bindings_kept(*old(ctx), *final(ctx)),
        reference_symbol(*final(ctx), reference_count(*old(ctx))) == Some(
            binding.symbol_id as nat,
        ),
        is_read_reference(*final(ctx), reference_count(*old(ctx))),
{
    let symbol_id = SymbolId::from_usize(binding.symbol_id as usize);
    BoundIdentifier::new(Atom::from(binding.name), symbol_id).create_read_expression(ctx)
}

/// `ScopeTree::find_binding` on the scope tree of the context, starting at
/// its current scope: the symbol that `name` is bound to in the nearest
/// enclosing scope that declares it, if any does.
///
/// Taken on trust: the result depends on the context and the name alone, and
/// in a consistent context a symbol that is found is a symbol of the symbol
/// table. Which symbol is found, and whether one is, is not claimed. The call
/// walks the parents of the current scope, hence the precondition.
#[verifier::external_body]
pub(crate) fn find_binding<'a>(ctx: &TraverseCtx<'a>, name: &str) -> (symbol_id: Option<u32>)
    requires
        scoping_consistent(*ctx),
    ensures
        symbol_of(symbol_id) == visible_binding(*ctx, name@),
        symbol_id matches Some(id) ==> id < symbol_count(*ctx),
{
    match ctx.scopes().find_binding(ctx.current_scope_id(), name) {
        Some(symbol_id) => Some(symbol_id.index() as u32),
        None => None,
    }
}

/// `TraverseCtx::create_reference_id`: registers a new reference with the
/// given flags, bound to `symbol_id` if there is one and recorded as
/// unresolved under `name` otherwise, and returns an identifier reference
/// that carries `name` and that reference.
///
/// Taken on trust: exactly one reference is appended to the table of
/// references, with the given flags and bound to `symbol_id`; the node has
/// the given span, the given name and that reference; no symbol is added, no
/// other reference is changed, every name means what it meant, and a
/// consistent context stays consistent. The call indexes the symbol table by
/// the symbol, where there is one, and pushes onto a table of at most
/// `u32::MAX` entries, hence the preconditions.
#[verifier::external_body]
pub(crate) fn create_reference_id<'a>(
    ctx: &mut TraverseCtx<'a>,
    span: Span,
    name: &'a str,
    symbol_id: Option<u32>,
    flags: ReferenceFlags,
) -> (ident: IdentifierReference<'a>)
    requires
        scoping_consistent(*old(ctx)),
        symbol_id matches Some(id) ==> id < symbol_count(*old(ctx)),
        reference_count(*old(ctx)) < u32::MAX,
    ensures
        identifier_reference_parts(ident) == (IdentifierReferenceParts {
            span,
            name: name@,
            reference: Some(reference_count(*old(ctx))),
        }),
        scoping_consistent(*final(ctx)),
        context_grew(*old(ctx), *final(ctx), 0, 1),
        bindings_kept(*old(ctx), *final(ctx)),
        reference_symbol(*final(ctx), reference_count(*old(ctx))) == symbol_of(symbol_id),
        reference_flags(*final(ctx), reference_count(*old(ctx))) == flags,
{
    let symbol_id = match symbol_id {
        Some(id) => Some(SymbolId::from_usize(id as usize)),
        None => None,
    };
    ctx.create_reference_id(span, Atom::from(name), symbol_id, flags)
}

} // verus!
