use std::borrow::Cow;

use helper_loader::{Helper, HelperLoader, HelperLoaderMode, HelperLoaderOptions, HelperLoaderStore};
use oxc_allocator::Allocator;
use oxc_ast::ast::{CallExpression, Expression, Program};
use oxc_parser::Parser;
use oxc_semantic::{ReferenceId, ScopeId, SemanticBuilder, SymbolId};
use oxc_span::SourceType;
use oxc_traverse::{traverse_mut, Traverse, TraverseCtx};

fn external_context<'a>(allocator: &'a Allocator, source: &'a str) -> TraverseCtx<'a> {
    let program = Parser::new(allocator, source, SourceType::default()).parse().program;
    let semantic = SemanticBuilder::new().build(&program).semantic;
    let (symbols, scopes) = semantic.into_symbol_table_and_scope_tree();
    TraverseCtx::new(scopes, symbols, allocator)
}

fn external_store<'a>() -> HelperLoaderStore<'a> {
    HelperLoaderStore::new(&HelperLoaderOptions {
        module_name: Cow::Borrowed("@babel/runtime"),
        mode: HelperLoaderMode::External,
    })
}

/// The object's name and reference, the property's name, and whether the
/// access is optional, of `object.property`.
fn static_member<'e>(expr: &'e Expression<'_>) -> (&'e str, ReferenceId, &'e str, bool) {
    match expr {
        Expression::StaticMemberExpression(member) => match &member.object {
            Expression::Identifier(object) => (
                object.name.as_str(),
                object.reference_id().unwrap(),
                member.property.name.as_str(),
                member.optional,
            ),
            _ => panic!("the object is not an identifier"),
        },
        _ => panic!("not a static member expression"),
    }
}

#[test]
fn external_load_reads_a_member_of_the_global_object() {
    let allocator = Allocator::default();
    let mut ctx = external_context(&allocator, "var a;");
    let symbols_before = ctx.symbols().len();
    let references_before = ctx.symbols().references.len();
    let mut store = external_store();

    let callee = store.load(Helper::ObjectSpread2, &mut ctx);

    let (object, reference, property, optional) = static_member(&callee);
    assert_eq!(object, "babelHelpers");
    assert_eq!(property, "objectSpread2");
    assert!(!optional);
    assert_eq!(ctx.symbols().get_reference(reference).symbol_id(), None);
    assert!(ctx.symbols().get_reference(reference).is_read());
    assert!(!ctx.symbols().get_reference(reference).is_write());
    assert_eq!(ctx.symbols().len(), symbols_before);
    assert_eq!(ctx.symbols().references.len(), references_before + 1);
    assert_eq!(
        ctx.scopes().root_unresolved_references().get("babelHelpers").map(Vec::len),
        Some(1)
    );
}

#[test]
fn external_load_binds_to_a_declared_global_object() {
    let allocator = Allocator::default();
    let mut ctx = external_context(&allocator, "var first; var babelHelpers = {};");
    let declared = ctx.scopes().get_binding(ctx.scopes().root_scope_id(), "babelHelpers").unwrap();
    let mut store = external_store();

    let callee = store.load(Helper::ObjectSpread2, &mut ctx);

    let (object, reference, property, _) = static_member(&callee);
    assert_eq!(object, "babelHelpers");
    assert_eq!(property, "objectSpread2");
    assert_eq!(ctx.symbols().get_reference(reference).symbol_id(), Some(declared));
    assert!(ctx.symbols().get_resolved_reference_ids(declared).contains(&reference));
}

#[test]
fn external_mode_never_caches_and_never_imports() {
    let allocator = Allocator::default();
    let mut ctx = external_context(&allocator, "");
    let symbols_before = ctx.symbols().len();
    let mut store = external_store();

    let first = store.load(Helper::ObjectSpread2, &mut ctx);
    assert!(store.loaded(Helper::ObjectSpread2).is_none());
    let second = store.load(Helper::ObjectSpread2, &mut ctx);
    let third = store.call_expr(Helper::ObjectSpread2, ctx.ast.vec(), &mut ctx);
    assert!(store.loaded(Helper::ObjectSpread2).is_none());

    let (_, first_reference, _, _) = static_member(&first);
    let (_, second_reference, _, _) = static_member(&second);
    assert_ne!(first_reference, second_reference);
    assert!(matches!(third, Expression::CallExpression(_)));
    assert_eq!(ctx.symbols().len(), symbols_before);
    assert_eq!(store.mode(), HelperLoaderMode::External);

    assert_eq!(HelperLoader::new(&mut store).exit_program().len(), 0);
    assert_eq!(HelperLoader::new(&mut store).exit_program().len(), 0);
}

struct ExternalCalls<'a> {
    store: HelperLoaderStore<'a>,
    /// For each call of the program, in source order: the scope of the call
    /// and the symbol that the global object was bound to.
    seen: Vec<(ScopeId, Option<SymbolId>)>,
}

impl<'a> Traverse<'a> for ExternalCalls<'a> {
    fn exit_call_expression(&mut self, node: &mut CallExpression<'a>, ctx: &mut TraverseCtx<'a>) {
        node.callee = self.store.load(Helper::ObjectSpread2, ctx);
        let (_, reference, _, _) = static_member(&node.callee);
        let symbol = ctx.symbols().get_reference(reference).symbol_id();
        self.seen.push((ctx.current_scope_id(), symbol));
    }

    fn exit_program(&mut self, _node: &mut Program<'a>, _ctx: &mut TraverseCtx<'a>) {
        assert_eq!(HelperLoader::new(&mut self.store).exit_program().len(), 0);
    }
}

#[test]
fn external_load_looks_outward_from_the_current_scope() {
    let allocator = Allocator::default();
    let source = "var babelHelpers; function f() { let babelHelpers; inner(); } outer();";
    let mut program = Parser::new(&allocator, source, SourceType::default()).parse().program;
    let semantic = SemanticBuilder::new().build(&program).semantic;
    let (symbols, scopes) = semantic.into_symbol_table_and_scope_tree();
    let mut visitor = ExternalCalls { store: external_store(), seen: Vec::new() };

    let (symbols, scopes) = traverse_mut(&mut visitor, &allocator, &mut program, symbols, scopes);

    let root = scopes.root_scope_id();
    let global = scopes.get_binding(root, "babelHelpers").unwrap();
    assert_eq!(visitor.seen.len(), 2);
    let (inner_scope, inner_symbol) = visitor.seen[0];
    let (outer_scope, outer_symbol) = visitor.seen[1];
    assert_ne!(inner_scope, root);
    assert_eq!(outer_scope, root);
    assert_eq!(outer_symbol, Some(global));
    let shadow = inner_symbol.unwrap();
    assert_ne!(shadow, global);
    assert_eq!(symbols.get_name(shadow), "babelHelpers");
    assert_eq!(symbols.get_scope_id(shadow), inner_scope);
}

#[test]
fn external_callee_carries_empty_spans_and_a_read() {
    let allocator = Allocator::default();
    let mut ctx = external_context(&allocator, "var babelHelpers;");
    let before = ctx.scopes().find_binding(ctx.current_scope_id(), "babelHelpers");
    let references_before = ctx.symbols().references.len();
    let mut store = external_store();

    let callee = store.load(Helper::ObjectSpread2, &mut ctx);

    match &callee {
        Expression::StaticMemberExpression(member) => {
            assert_eq!((member.span.start, member.span.end), (0, 0));
            assert_eq!((member.property.span.start, member.property.span.end), (0, 0));
            match &member.object {
                Expression::Identifier(object) => {
                    assert_eq!((object.span.start, object.span.end), (0, 0));
                    let reference = object.reference_id().unwrap();
                    assert_eq!(oxc_index::Idx::index(reference), references_before);
                    assert_eq!(ctx.symbols().get_reference(reference).flags().bits(), 1);
                    assert_eq!(ctx.symbols().get_reference(reference).symbol_id(), before);
                }
                _ => panic!("the object is not an identifier"),
            }
        }
        _ => panic!("not a static member expression"),
    }
    assert_eq!(ctx.scopes().find_binding(ctx.current_scope_id(), "babelHelpers"), before);
}

#[test]
fn external_requests_at_one_place_bind_one_symbol() {
    let allocator = Allocator::default();
    let mut ctx = external_context(&allocator, "let babelHelpers = {};");
    let mut store = external_store();
    let first = store.load(Helper::ObjectSpread2, &mut ctx);
    let second = store.load(Helper::ObjectSpread2, &mut ctx);
    let (first_object, first_reference, first_property, _) = static_member(&first);
    let (second_object, second_reference, second_property, _) = static_member(&second);
    assert_eq!(first_object, second_object);
    assert_eq!(first_property, second_property);
    assert_ne!(first_reference, second_reference);
    let first_symbol = ctx.symbols().get_reference(first_reference).symbol_id();
    assert!(first_symbol.is_some());
    assert_eq!(first_symbol, ctx.symbols().get_reference(second_reference).symbol_id());
}
