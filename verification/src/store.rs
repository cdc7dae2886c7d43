//! The store of loaded helpers and the operations that transforms call on it.

use crate::arena::{
    arena_string_into_str, arena_string_push_str, arena_string_with_capacity,
    lemma_encode_utf8_concat,
};
use crate::ast::{
    call_expression, call_parts, expression_call, expression_from_identifier_reference,
    expression_from_member, expression_parts, identifier_name, identifier_name_parts,
    identifier_reference_parts, member_expression_static, static_member_parts,
};
use crate::cache::{
    cache_drain, cache_get, cache_insert, cache_new, LoadedHelper, LoadedHelperView,
};
use crate::context::{
    context_grew, create_read_expression, create_reference_id, dummy_span, find_binding,
    generate_uid_in_root_scope, import_symbol_flags, is_dummy_span, is_import_binding,
    is_read_reference, read_reference_flags, reference_count, reference_symbol, references_len,
    scoping_consistent, symbol_count, symbols_len, uid_name, visible_binding, LocalBinding,
    LocalBindingView,
};
use crate::helper::Helper;
use crate::options::{clone_module_name, module_name_text, HelperLoaderMode, HelperLoaderOptions};
use oxc_allocator::Vec as ArenaVec;
use oxc_ast::ast::{Argument, CallExpression, Expression};
use oxc_traverse::TraverseCtx;
use rustc_hash::FxHashMap;
use std::borrow::Cow;
use vstd::prelude::*;
use vstd::utf8::encode_utf8;

verus! {

/// The name of the global object that holds the helpers in external mode.
pub const HELPER_VAR: &'static str = "babelHelpers";

/// The path that `helper_name` is imported from when helpers come from the
/// module `module_name`.
pub open spec fn runtime_source_path(module_name: Seq<char>, helper_name: Seq<char>) -> Seq<char> {
    module_name + "/helpers/"@ + helper_name
}

/// The number of bytes that the import path of `helper_name` takes.
pub open spec fn source_path_len(module_name: Seq<char>, helper_name: Seq<char>) -> nat {
    encode_utf8(runtime_source_path(module_name, helper_name)).len()
}

/// The bytes of an import path are those of the module name, of `/helpers/`
/// and of the helper's name, one after the other.
pub proof fn lemma_source_path_len(module_name: Seq<char>, helper_name: Seq<char>)
    ensures
        encode_utf8(module_name + "/helpers/"@).len() == encode_utf8(module_name).len()
            + encode_utf8("/helpers/"@).len(),
        source_path_len(module_name, helper_name) == encode_utf8(module_name).len() + encode_utf8(
            "/helpers/"@,
        ).len() + encode_utf8(helper_name).len(),
{
    lemma_encode_utf8_concat(module_name, "/helpers/"@);
    lemma_encode_utf8_concat(module_name + "/helpers/"@, helper_name);
}

/// A default import that is to be added to the program:
/// `import local from "source"`.
#[derive(Clone, Copy, Debug)]
pub struct DefaultImport<'a> {
    pub source: &'a str,
    pub local: LocalBinding<'a>,
    pub type_only: bool,
}

/// The mathematical content of a [`DefaultImport`].
pub ghost struct DefaultImportView {
    pub source: Seq<char>,
    pub local: LocalBindingView,
    pub type_only: bool,
}

impl<'a> View for DefaultImport<'a> {
    type V = DefaultImportView;

    open spec fn view(&self) -> DefaultImportView {
        DefaultImportView { source: self.source@, local: self.local@, type_only: self.type_only }
    }
}

/// The import that brings in a loaded helper: a default import of its source,
/// bound to its local binding, of a value and not of a type.
pub open spec fn import_of(loaded: LoadedHelperView) -> DefaultImportView {
    DefaultImportView { source: loaded.source, local: loaded.local, type_only: false }
}

/// Whether `imports` is a flush of `loaded`: there is an order of the loaded
/// helpers, each helper once, in which `imports` holds the import of each.
pub open spec fn flushes(
    loaded: Map<Helper, LoadedHelperView>,
    imports: Seq<DefaultImportView>,
) -> bool {
    exists|order: Seq<Helper>| #[trigger] flushes_in(loaded, order, imports)
}

/// Whether `imports` holds the imports of the helpers `loaded`, in the given
/// order of these helpers.
pub open spec fn flushes_in(
    loaded: Map<Helper, LoadedHelperView>,
    order: Seq<Helper>,
    imports: Seq<DefaultImportView>,
) -> bool {
    &&& order.no_duplicates()
    &&& forall|helper: Helper| loaded.contains_key(helper) <==> order.contains(helper)
    &&& imports.len() == order.len()
    &&& forall|i: int| 0 <= i < order.len() ==> #[trigger] imports[i] == import_of(loaded[order[i]])
}

/// The state of a [`HelperLoaderStore`].
pub ghost struct StoreState {
    /// The module that helpers are imported from in runtime mode.
    pub module_name: Seq<char>,
    /// How helpers are made available.
    pub mode: HelperLoaderMode,
    /// The helpers that were imported and not flushed yet.
    pub loaded: Map<Helper, LoadedHelperView>,
}

impl StoreState {
    /// Whether a request for `helper` imports it: in runtime mode, when it is
    /// not loaded yet.
    pub open spec fn materializes(self, helper: Helper) -> bool {
        self.mode == HelperLoaderMode::Runtime && !self.loaded.contains_key(helper)
    }

    /// The helper as it is remembered when it is imported under the binding
    /// `local`.
    pub open spec fn materialized(self, helper: Helper, local: LocalBindingView) -> LoadedHelperView {
        LoadedHelperView {
            source: runtime_source_path(self.module_name, helper.name_spec()),
            local,
        }
    }

    /// The state after a request for `helper`, where `fresh` is the binding
    /// that the helper gets in case the request imports it.
    pub open spec fn after_load(self, helper: Helper, fresh: LocalBindingView) -> StoreState {
        if self.materializes(helper) {
            StoreState { loaded: self.loaded.insert(helper, self.materialized(helper, fresh)), ..self }
        } else {
            self
        }
    }

    /// The state after a flush.
    pub open spec fn after_flush(self) -> StoreState {
        StoreState { loaded: Map::empty(), ..self }
    }

    /// Whether the binding of every loaded helper is a symbol below `count`.
    pub open spec fn symbols_within(self, count: nat) -> bool {
        forall|helper: Helper| #[trigger]
            self.loaded.contains_key(helper) ==> self.loaded[helper].local.symbol_id < count
    }

    /// Whether the binding of `helper` can be looked up or made in the
    /// context `ctx`: if the helper is loaded, its binding is a symbol of the
    /// context, and if it is not, the context can take one more symbol and
    /// the import path is no longer than an object can be.
    pub open spec fn can_bind(self, helper: Helper, ctx: TraverseCtx) -> bool {
        if self.loaded.contains_key(helper) {
            self.loaded[helper].local.symbol_id < symbol_count(ctx)
        } else {
            &&& symbol_count(ctx) < u32::MAX
            &&& source_path_len(self.module_name, helper.name_spec()) <= isize::MAX
        }
    }

    /// Whether the store admits a request for `helper` in the context `ctx`:
    /// the mode is implemented, the context can take one more reference, and
    /// in runtime mode the binding of the helper can be looked up or made.
    pub open spec fn admits(self, helper: Helper, ctx: TraverseCtx) -> bool {
        &&& self.mode != HelperLoaderMode::Inline
        &&& reference_count(ctx) < u32::MAX
        &&& self.mode == HelperLoaderMode::Runtime ==> self.can_bind(helper, ctx)
    }

    /// Whether `helper` can be requested in the context `ctx`: the context
    /// is consistent and the store admits the request.
    pub open spec fn can_load(self, helper: Helper, ctx: TraverseCtx) -> bool {
        &&& scoping_consistent(ctx)
        &&& self.admits(helper, ctx)
    }
}

/// Whether a request for `helper`, made of the store `before` in the context
/// `before_ctx`, leaves the store `after` and the context `after_ctx`.
///
/// The store changes as [`StoreState::after_load`] says, for the binding that
/// the helper has afterwards. If the request imports the helper, that binding
/// is the one new symbol of the context: an import binding in the root scope,
/// under the name that the context makes up for the helper's name. Else the
/// context gets no symbol. In both cases the context gets one reference,
/// which is that of the expression handed out: a read, bound in runtime mode
/// to the binding of the helper, and in external mode to what the name of the
/// global object means in the current scope, if it means anything. Every
/// name but that of a new binding means what it meant.
pub open spec fn load_effect(
    before: StoreState,
    before_ctx: TraverseCtx,
    helper: Helper,
    after: StoreState,
    after_ctx: TraverseCtx,
) -> bool {
    &&& after == before.after_load(helper, after.loaded[helper].local)
    &&& before.materializes(helper) ==> is_new_binding(
        before_ctx,
        helper,
        after.loaded[helper].local,
        after_ctx,
    )
    &&& scoping_consistent(after_ctx)
    &&& context_grew(
        before_ctx,
        after_ctx,
        if before.materializes(helper) {
            1
        } else {
            0
        },
        1,
    )
    &&& bindings_kept_but(
        before_ctx,
        after_ctx,
        if before.materializes(helper) {
            Some(after.loaded[helper].local.name)
        } else {
            None
        },
    )
    &&& is_read_reference(after_ctx, reference_count(before_ctx))
    &&& reference_symbol(after_ctx, reference_count(before_ctx)) == if before.mode
        == HelperLoaderMode::Runtime {
        Some(after.loaded[helper].local.symbol_id)
    } else {
        visible_binding(before_ctx, HELPER_VAR@)
    }
}

/// Whether `local` is the binding that a request for `helper` makes in the
/// context `before_ctx`, as the context `after_ctx` has it: its name is the
/// one that the context makes up for the helper's name, and its symbol is the
/// next one of the context, flagged as an import and declared in the root
/// scope.
pub open spec fn is_new_binding(
    before_ctx: TraverseCtx,
    helper: Helper,
    local: LocalBindingView,
    after_ctx: TraverseCtx,
) -> bool {
    &&& local.name == uid_name(before_ctx, helper.name_spec())
    &&& local.symbol_id == symbol_count(before_ctx)
    &&& is_import_binding(after_ctx, local.symbol_id)
}

/// Whether every name, but for `new_name` if there is one, means in the
/// context `after` what it means in the context `before`.
pub open spec fn bindings_kept_but(
    before: TraverseCtx,
    after: TraverseCtx,
    new_name: Option<Seq<char>>,
) -> bool {
    forall|name: Seq<char>|
        new_name != Some(name) ==> #[trigger] visible_binding(after, name) == visible_binding(
            before,
            name,
        )
}

/// Whether `expr` is an identifier with the empty span, the given name and
/// the reference with the given index.
pub open spec fn is_identifier(expr: Expression, name: Seq<char>, reference: nat) -> bool {
    &&& expression_parts(expr) is Identifier
    &&& is_dummy_span(identifier_reference_parts(expression_parts(expr)->Identifier_0).span)
    &&& identifier_reference_parts(expression_parts(expr)->Identifier_0).name == name
    &&& identifier_reference_parts(expression_parts(expr)->Identifier_0).reference == Some(
        reference,
    )
}

/// Whether `expr` is the member `property` of the global object: a static
/// member access, not optional, on the identifier named [`HELPER_VAR`] with
/// the reference of the given index, all with the empty span.
pub open spec fn is_global_member(expr: Expression, property: Seq<char>, reference: nat) -> bool {
    &&& expression_parts(expr) is Member
    &&& static_member_parts(expression_parts(expr)->Member_0) matches Some(member)
    &&& is_dummy_span(member.span)
    &&& !member.optional
    &&& is_identifier(member.object, HELPER_VAR@, reference)
    &&& is_dummy_span(identifier_name_parts(member.property).span)
    &&& identifier_name_parts(member.property).name == property
}

/// Whether `callee` is the expression that a request for `helper` hands out,
/// made of the store `before` in the context `before_ctx` and leaving the
/// store `after`: in runtime mode the identifier that names the binding of
/// the helper, in external mode the member of the global object that is
/// named like the helper. In both cases it carries the one reference that
/// the request gives the context.
pub open spec fn is_helper_callee(
    before: StoreState,
    before_ctx: TraverseCtx,
    helper: Helper,
    after: StoreState,
    callee: Expression,
) -> bool {
    if before.mode == HelperLoaderMode::Runtime {
        is_identifier(callee, after.loaded[helper].local.name, reference_count(before_ctx))
    } else {
        is_global_member(callee, helper.name_spec(), reference_count(before_ctx))
    }
}

/// Whether `call` is the call of `helper` with the given arguments: its
/// callee is what a request for the helper hands out, it has the arguments in
/// their order and no type arguments, it is not optional, and it carries the
/// empty span.
pub open spec fn is_helper_call(
    before: StoreState,
    before_ctx: TraverseCtx,
    helper: Helper,
    after: StoreState,
    arguments: ArenaVec<Argument>,
    call: CallExpression,
) -> bool {
    &&& is_dummy_span(call_parts(call).span)
    &&& is_helper_callee(before, before_ctx, helper, after, call_parts(call).callee)
    &&& call_parts(call).type_parameters is None
    &&& call_parts(call).arguments == arguments
    &&& !call_parts(call).optional
}

/// The mathematical contents of a list of imports.
pub open spec fn import_views(imports: Seq<DefaultImport>) -> Seq<DefaultImportView> {
    imports.map_values(|import: DefaultImport| import@)
}

/// Stores the state of the helper loader for one program.
pub struct HelperLoaderStore<'a> {
    module_name: Cow<'static, str>,
    mode: HelperLoaderMode,
    /// The loaded helpers, each under the key of its helper: they say which
    /// helpers need no new import and which imports are to be added.
    loaded_helpers: FxHashMap<u32, LoadedHelper<'a>>,
}

impl<'a> View for HelperLoaderStore<'a> {
    type V = StoreState;

    closed spec fn view(&self) -> StoreState {
        StoreState {
            module_name: self.module_name@,
            mode: self.mode,
            loaded: Map::new(
                |helper: Helper| self.loaded_helpers@.contains_key(helper.key_spec()),
                |helper: Helper| self.loaded_helpers@[helper.key_spec()]@,
            ),
        }
    }
}

// Public methods
impl<'a> HelperLoaderStore<'a> {
    /// The store is well formed: every key of its cache is the key of a
    /// helper. [`HelperLoaderStore::new`] establishes this and every method
    /// keeps it.
    pub closed spec fn wf(&self) -> bool {
        forall|key: u32| #[trigger]
            self.loaded_helpers@.contains_key(key) ==> Helper::of_key(key).is_some()
    }

    /// A store with the given options and no helper loaded.
    pub fn new(options: &HelperLoaderOptions) -> (store: Self)
        ensures
            store.wf(),
            store@.module_name == options.module_name@,
            store@.mode == options.mode,
            store@.loaded == Map::<Helper, LoadedHelperView>::empty(),
    {
        let store = Self {
            module_name: clone_module_name(&options.module_name),
            mode: options.mode,
            loaded_helpers: cache_new(),
        };
        assert(store@.loaded =~= Map::<Helper, LoadedHelperView>::empty());
        store
    }

    /// The module that helpers are imported from in runtime mode.
    pub fn module_name(&self) -> (name: &str)
        ensures
            name@ == self@.module_name,
    {
        module_name_text(&self.module_name)
    }

    /// How helpers are made available.
    pub fn mode(&self) -> (mode: HelperLoaderMode)
        ensures
            mode == self@.mode,
    {
        self.mode
    }

    /// What is remembered of `helper`, if it is loaded.
    pub fn loaded(&self, helper: Helper) -> (found: Option<LoadedHelper<'a>>)
        ensures
            found.is_some() == self@.loaded.contains_key(helper),
            found matches Some(loaded) ==> loaded@ == self@.loaded[helper],
    {
        match cache_get(&self.loaded_helpers, helper.key()) {
            Some(loaded) => Some(*loaded),
            None => None,
        }
    }

    /// Whether the store admits a request for `helper` in the context `ctx`.
    ///
    /// Together with the consistency of the context, which no test can
    /// establish, this is what [`HelperLoaderStore::load`] asks for.
    pub fn admits(&self, helper: Helper, ctx: &TraverseCtx<'a>) -> (ok: bool)
        ensures
            ok == self@.admits(helper, *ctx),
    {
        match self.mode {
            HelperLoaderMode::Inline => false,
            HelperLoaderMode::External => references_len(ctx) < u32::MAX as usize,
            HelperLoaderMode::Runtime => references_len(ctx) < u32::MAX as usize
                && self.can_bind(helper, ctx),
        }
    }

    /// Load and call a helper function and return a `CallExpression`: the
    /// call of the helper with the given arguments, in their order, with no
    /// type arguments, not optional.
    pub fn call(
        &mut self,
        helper: Helper,
        arguments: ArenaVec<'a, Argument<'a>>,
        ctx: &mut TraverseCtx<'a>,
    ) -> (call: CallExpression<'a>)
        requires
            old(self).wf(),
            old(self)@.can_load(helper, *old(ctx)),
        ensures
            final(self).wf(),
            load_effect(old(self)@, *old(ctx), helper, final(self)@, *final(ctx)),
            is_helper_call(old(self)@, *old(ctx), helper, final(self)@, arguments, call),
    {
        let callee = self.load(helper, ctx);
        call_expression(ctx, dummy_span(), callee, None, arguments, false)
    }

    /// Same as [`HelperLoaderStore::call`], but returns a `CallExpression` wrapped in an `Expression`.
    pub fn call_expr(
        &mut self,
        helper: Helper,
        arguments: ArenaVec<'a, Argument<'a>>,
        ctx: &mut TraverseCtx<'a>,
    ) -> (call: Expression<'a>)
        requires
            old(self).wf(),
            old(self)@.can_load(helper, *old(ctx)),
        ensures
            final(self).wf(),
            load_effect(old(self)@, *old(ctx), helper, final(self)@, *final(ctx)),
            expression_parts(call) is Call,
            is_helper_call(
                old(self)@,
                *old(ctx),
                helper,
                final(self)@,
                arguments,
                expression_parts(call)->Call_0,
            ),
    {
        let callee = self.load(helper, ctx);
        expression_call(ctx, dummy_span(), callee, None, arguments, false)
    }

    /// Load a helper function and return a callee expression.
    ///
    /// In runtime mode the expression is an identifier that reads the binding
    /// under which the helper is imported; the first request for a helper
    /// imports it. In external mode the expression is the member of the
    /// global object that is named like the helper, and the store stays as it
    /// is.
    pub fn load(&mut self, helper: Helper, ctx: &mut TraverseCtx<'a>) -> (callee: Expression<'a>)
        requires
            old(self).wf(),
            old(self)@.can_load(helper, *old(ctx)),
        ensures
            final(self).wf(),
            load_effect(old(self)@, *old(ctx), helper, final(self)@, *final(ctx)),
            is_helper_callee(old(self)@, *old(ctx), helper, final(self)@, callee),
    {
        match self.mode {
            HelperLoaderMode::Runtime => self.transform_for_runtime_helper(helper, ctx),
            HelperLoaderMode::External => Self::transform_for_external_helper(helper, ctx),
            HelperLoaderMode::Inline => unreached(),
        }
    }

    /// The binding under which `helper` is imported: the one that is cached
    /// if the helper is loaded, and else a new one, made in the root scope of
    /// the program and cached together with the import path.
    pub fn local_binding(&mut self, helper: Helper, ctx: &mut TraverseCtx<'a>) -> (local:
        LocalBinding<'a>)
        requires
            old(self).wf(),
            old(self)@.mode == HelperLoaderMode::Runtime,
            scoping_consistent(*old(ctx)),
            old(self)@.can_bind(helper, *old(ctx)),
        ensures
            final(self).wf(),
            final(self)@ == old(self)@.after_load(helper, local@),
            final(self)@.loaded.contains_key(helper),
            final(self)@.loaded[helper].local == local@,
            local.symbol_id < symbol_count(*final(ctx)),
            old(self)@.materializes(helper) ==> is_new_binding(
                *old(ctx),
                helper,
                local@,
                *final(ctx),
            ),
            !old(self)@.materializes(helper) ==> *final(ctx) == *old(ctx),
            bindings_kept_but(
                *old(ctx),
                *final(ctx),
                if old(self)@.materializes(helper) {
                    Some(local.name@)
                } else {
                    None
                },
            ),
            scoping_consistent(*final(ctx)),
            context_grew(
                *old(ctx),
                *final(ctx),
                if old(self)@.materializes(helper) {
                    1
                } else {
                    0
                },
                0,
            ),
    {
        proof {
            Helper::lemma_key_round_trip(helper, helper.key_spec());
        }
        let key = helper.key();
        match cache_get(&self.loaded_helpers, key) {
            Some(loaded) => {
                let local = loaded.local;
                assert(self@ == old(self)@.after_load(helper, local@));
                local
            },
            None => {
                let loaded = self.get_runtime_helper(helper, ctx);
                cache_insert(&mut self.loaded_helpers, key, loaded);
                proof {
                    assert forall|other: Helper| other.key_spec() == key implies other
                        == helper by {
                        Helper::lemma_key_round_trip(other, key);
                    }
                    assert(self@.loaded =~= old(self)@.loaded.insert(
                        helper,
                        old(self)@.materialized(helper, loaded.local@),
                    ));
                }
                loaded.local
            },
        }
    }
}

// Internal methods
impl<'a> HelperLoaderStore<'a> {
    /// Whether the binding of `helper` can be looked up or made in the
    /// context `ctx`.
    fn can_bind(&self, helper: Helper, ctx: &TraverseCtx<'a>) -> (ok: bool)
        ensures
            ok == self@.can_bind(helper, *ctx),
    {
        proof {
            Helper::lemma_key_round_trip(helper, helper.key_spec());
        }
        match cache_get(&self.loaded_helpers, helper.key()) {
            Some(loaded) => (loaded.local.symbol_id as usize) < symbols_len(ctx),
            None => symbols_len(ctx) < u32::MAX as usize && self.source_path_fits(helper),
        }
    }

    /// Whether the import path of `helper` is no longer than an object can
    /// be.
    fn source_path_fits(&self, helper: Helper) -> (ok: bool)
        ensures
            ok == (source_path_len(self@.module_name, helper.name_spec()) <= isize::MAX),
    {
        let helper_name = helper.name();
        let module_name = module_name_text(&self.module_name);
        proof {
            lemma_source_path_len(module_name@, helper_name@);
        }
        let module_len = module_name.as_bytes().len();
        let infix_len = "/helpers/".as_bytes().len();
        let name_len = helper_name.as_bytes().len();
        match module_len.checked_add(infix_len) {
            Some(prefix_len) => match prefix_len.checked_add(name_len) {
                Some(len) => len <= isize::MAX as usize,
                None => false,
            },
            None => false,
        }
    }

    /// Empties the store and returns the import of every helper that was
    /// loaded, each once, in no particular order.
    pub(crate) fn add_imports(&mut self) -> (imports: Vec<DefaultImport<'a>>)
        requires
            old(self).wf(),
        ensures
            final(self).wf(),
            final(self)@ == old(self)@.after_flush(),
            flushes(old(self)@.loaded, import_views(imports@)),
    {
        let entries = cache_drain(&mut self.loaded_helpers);
        let mut imports: Vec<DefaultImport<'a>> = Vec::new();
        let mut i: usize = 0;
        while i < entries.len()
            invariant
                i <= entries.len(),
                imports.len() == i,
                forall|j: int| 0 <= j < i ==> (#[trigger] imports[j])@ == import_of(entries[j].1@),
            decreases entries.len() - i,
        {
            let helper = entries[i].1;
            imports.push(
                DefaultImport { source: helper.source, local: helper.local, type_only: false },
            );
            i += 1;
        }
        proof {
            let loaded = old(self)@.loaded;
            let order = Seq::new(entries@.len(), |j: int| Helper::of_key(entries[j].0).unwrap());
            assert forall|j: int| 0 <= j < order.len() implies order[j].key_spec() == entries[j].0
                && loaded.contains_key(order[j]) && #[trigger] import_views(imports@)[j]
                == import_of(loaded[order[j]]) by {
                Helper::lemma_key_round_trip(order[j], entries[j].0);
                assert(imports[j]@ == import_of(entries[j].1@));
            }
            assert forall|helper: Helper| loaded.contains_key(helper) implies order.contains(
                helper,
            ) by {
                let j = choose|j: int| 0 <= j < entries.len() && entries[j].0 == helper.key_spec();
                Helper::lemma_key_round_trip(helper, entries[j].0);
                assert(order[j] == helper);
            }
            assert(flushes_in(loaded, order, import_views(imports@)));
            assert(self@.loaded =~= Map::<Helper, LoadedHelperView>::empty());
        }
        imports
    }

    /// A reference to `helper` in runtime mode: a read of the binding under
    /// which the helper is imported.
    fn transform_for_runtime_helper(&mut self, helper: Helper, ctx: &mut TraverseCtx<'a>) -> (callee:
        Expression<'a>)
        requires
            old(self).wf(),
            old(self)@.mode == HelperLoaderMode::Runtime,
            old(self)@.can_load(helper, *old(ctx)),
        ensures
            final(self).wf(),
            final(self)@.loaded.contains_key(helper),
            load_effect(old(self)@, *old(ctx), helper, final(self)@, *final(ctx)),
            is_identifier(
                callee,
                final(self)@.loaded[helper].local.name,
                reference_count(*old(ctx)),
            ),
    {
        let local = self.local_binding(helper, ctx);
        create_read_expression(&local, ctx)
    }

    /// A reference to `helper` in external mode: the member `helper` of the
    /// global object, which is bound to what its name means in the current
    /// scope, or left unresolved if it means nothing there.
    fn transform_for_external_helper(helper: Helper, ctx: &mut TraverseCtx<'a>) -> (callee:
        Expression<'a>)
        requires
            scoping_consistent(*old(ctx)),
            reference_count(*old(ctx)) < u32::MAX,
        ensures
            is_global_member(callee, helper.name_spec(), reference_count(*old(ctx))),
            scoping_consistent(*final(ctx)),
            context_grew(*old(ctx), *final(ctx), 0, 1),
            bindings_kept_but(*old(ctx), *final(ctx), None),
            is_read_reference(*final(ctx), reference_count(*old(ctx))),
            reference_symbol(*final(ctx), reference_count(*old(ctx))) == visible_binding(
                *old(ctx),
                HELPER_VAR@,
            ),
    {
        let symbol_id = find_binding(ctx, HELPER_VAR);
        let ident = create_reference_id(
            ctx,
            dummy_span(),
            HELPER_VAR,
            symbol_id,
            read_reference_flags(),
        );
        let object = expression_from_identifier_reference(ctx, ident);
        let property = identifier_name(ctx, dummy_span(), helper.name());
        expression_from_member(
            member_expression_static(ctx, dummy_span(), object, property, false),
        )
    }

    /// Imports `helper`: builds its import path in the arena and makes a new
    /// binding for it in the root scope of the program.
    fn get_runtime_helper(&self, helper: Helper, ctx: &mut TraverseCtx<'a>) -> (loaded:
        LoadedHelper<'a>)
        requires
            scoping_consistent(*old(ctx)),
            symbol_count(*old(ctx)) < u32::MAX,
            source_path_len(self@.module_name, helper.name_spec()) <= isize::MAX,
        ensures
            loaded@ == self@.materialized(helper, loaded.local@),
            is_new_binding(*old(ctx), helper, loaded.local@, *final(ctx)),
            scoping_consistent(*final(ctx)),
            context_grew(*old(ctx), *final(ctx), 1, 0),
            bindings_kept_but(*old(ctx), *final(ctx), Some(loaded.local.name@)),
    {
        let helper_name = helper.name();
        let module_name = module_name_text(&self.module_name);
        proof {
            lemma_source_path_len(module_name@, helper_name@);
        }

        // Construct string directly in arena without an intermediate temp allocation
        let len = module_name.len() + "/helpers/".len() + helper_name.len();
        let mut source = arena_string_with_capacity(ctx, len);
        arena_string_push_str(&mut source, module_name);
        arena_string_push_str(&mut source, "/helpers/");
        arena_string_push_str(&mut source, helper_name);
        let source = arena_string_into_str(source);

        let local = generate_uid_in_root_scope(ctx, helper_name, import_symbol_flags());

        LoadedHelper { source, local }
    }
}

} // verus!
