//! What holds of the store whatever is asked of it, stated over the model of
//! its state and proved from the definitions that the contracts use.

use crate::cache::LoadedHelperView;
use crate::context::{
    is_read_reference, reference_count, reference_symbol, symbol_count, visible_binding,
    LocalBindingView,
};
use crate::helper::Helper;
use crate::options::HelperLoaderMode;
use crate::store::{
    flushes, flushes_in, import_of, is_new_binding, load_effect, runtime_source_path,
    DefaultImportView, StoreState, HELPER_VAR,
};
use oxc_traverse::TraverseCtx;
use vstd::prelude::*;

verus! {

/// Whether `stores` and `contexts` are a run of the requests `helpers`: the
/// store and the context before the first request, and after every request
/// the store and the context that it leaves.
pub open spec fn is_run(
    stores: Seq<StoreState>,
    contexts: Seq<TraverseCtx>,
    helpers: Seq<Helper>,
) -> bool {
    &&& stores.len() == helpers.len() + 1
    &&& contexts.len() == helpers.len() + 1
    &&& forall|k: int|
        0 <= k < helpers.len() ==> #[trigger] is_request(stores, contexts, helpers, k)
}

/// Whether the request number `k` of a run leads from the store and the
/// context number `k` to the next ones.
pub open spec fn is_request(
    stores: Seq<StoreState>,
    contexts: Seq<TraverseCtx>,
    helpers: Seq<Helper>,
    k: int,
) -> bool {
    load_effect(stores[k], contexts[k], helpers[k], stores[k + 1], contexts[k + 1])
}

/// Whether `import` is the import of a helper of `loaded`.
pub open spec fn imports_a_helper(
    loaded: Map<Helper, LoadedHelperView>,
    import: DefaultImportView,
) -> bool {
    exists|helper: Helper| #[trigger]
        loaded.contains_key(helper) && import == import_of(loaded[helper])
}

/// Whether `text` ends with `suffix`.
pub open spec fn ends_with(text: Seq<char>, suffix: Seq<char>) -> bool {
    &&& suffix.len() <= text.len()
    &&& text.subrange(text.len() - suffix.len(), text.len() as int) == suffix
}

/// A run without its last request is a run.
proof fn lemma_run_without_last(
    stores: Seq<StoreState>,
    contexts: Seq<TraverseCtx>,
    helpers: Seq<Helper>,
)
    requires
        is_run(stores, contexts, helpers),
        helpers.len() >= 1,
    ensures
        is_run(stores.drop_last(), contexts.drop_last(), helpers.drop_last()),
{
    assert forall|k: int| 0 <= k < helpers.len() - 1 implies #[trigger] is_request(
        stores.drop_last(),
        contexts.drop_last(),
        helpers.drop_last(),
        k,
    ) by {
        assert(is_request(stores, contexts, helpers, k));
    }
}

/// Requests for one helper share one binding: in runtime mode a run of
/// requests for one helper, at least one, leaves the store as the first of
/// them leaves it, with the helper loaded. The context gets one symbol, the
/// binding of the helper, if the helper was not loaded before, and none if it
/// was: an import binding in the root scope, named as the context names a
/// new binding for the helper's name. It gets one reference per request, and
/// at the end of the run every one of these references is a read bound to
/// that one binding.
pub proof fn law_requests_refer_to_one_binding(
    stores: Seq<StoreState>,
    contexts: Seq<TraverseCtx>,
    helpers: Seq<Helper>,
    helper: Helper,
)
    requires
        is_run(stores, contexts, helpers),
        helpers.len() >= 1,
        forall|k: int| 0 <= k < helpers.len() ==> #[trigger] helpers[k] == helper,
        stores[0].mode == HelperLoaderMode::Runtime,
    ensures
        forall|k: int| 1 <= k < stores.len() ==> #[trigger] stores[k] == stores[1],
        stores[1] == stores[0].after_load(helper, stores[1].loaded[helper].local),
        stores.last().loaded.contains_key(helper),
        symbol_count(contexts.last()) == symbol_count(contexts[0]) + if stores[0].materializes(
            helper,
        ) {
            1nat
        } else {
            0nat
        },
        stores[0].materializes(helper) ==> is_new_binding(
            contexts[0],
            helper,
            stores.last().loaded[helper].local,
            contexts.last(),
        ),
        forall|k: int|
            0 <= k < contexts.len() ==> reference_count(#[trigger] contexts[k]) == reference_count(
                contexts[0],
            ) + k,
        forall|k: int|
            0 <= k < helpers.len() ==> reference_symbol(
                contexts.last(),
                reference_count(#[trigger] contexts[k]),
            ) == Some(stores.last().loaded[helper].local.symbol_id),
        forall|k: int|
            0 <= k < helpers.len() ==> is_read_reference(
                contexts.last(),
                reference_count(#[trigger] contexts[k]),
            ),
    decreases helpers.len(),
{
    let last = helpers.len() as int;
    assert(is_request(stores, contexts, helpers, 0));
    assert(is_request(stores, contexts, helpers, last - 1));
    assert(helpers[0] == helper && helpers[last - 1] == helper);
    assert(stores[1].mode == HelperLoaderMode::Runtime && stores[1].loaded.contains_key(helper));
    if helpers.len() > 1 {
        let earlier_stores = stores.drop_last();
        let earlier_contexts = contexts.drop_last();
        let earlier_helpers = helpers.drop_last();
        lemma_run_without_last(stores, contexts, helpers);
        assert forall|k: int| 0 <= k < earlier_helpers.len() implies #[trigger] earlier_helpers[k]
            == helper by {
            assert(helpers[k] == helper);
        }
        law_requests_refer_to_one_binding(
            earlier_stores,
            earlier_contexts,
            earlier_helpers,
            helper,
        );
        assert(earlier_stores.last() == stores[last - 1]);
        assert(earlier_contexts.last() == contexts[last - 1]);
        assert(earlier_stores[0] == stores[0] && earlier_contexts[0] == contexts[0]);
        assert(earlier_stores[1] == stores[1]);
        assert(earlier_stores[last - 1] == earlier_stores[1]);
        assert(!stores[last - 1].materializes(helper));
        assert(stores[last] == stores[last - 1]);
        assert forall|k: int| 1 <= k < stores.len() implies #[trigger] stores[k] == stores[1] by {
            if k < last {
                assert(earlier_stores[k] == earlier_stores[1]);
            }
        }
        assert forall|k: int| 0 <= k < contexts.len() implies reference_count(
            #[trigger] contexts[k],
        ) == reference_count(contexts[0]) + k by {
            if k < last {
                assert(reference_count(earlier_contexts[k]) == reference_count(
                    earlier_contexts[0],
                ) + k);
            }
        }
        assert forall|k: int| 0 <= k < helpers.len() implies reference_symbol(
            contexts.last(),
            reference_count(#[trigger] contexts[k]),
        ) == Some(stores.last().loaded[helper].local.symbol_id) by {
            if k < last - 1 {
                assert(reference_symbol(
                    earlier_contexts.last(),
                    reference_count(earlier_contexts[k]),
                ) == Some(earlier_stores.last().loaded[helper].local.symbol_id));
                assert(reference_count(contexts[k]) < reference_count(contexts[last - 1]));
                assert(reference_symbol(contexts[last], reference_count(contexts[k]))
                    == reference_symbol(contexts[last - 1], reference_count(contexts[k])));
            }
        }
        assert forall|k: int| 0 <= k < helpers.len() implies is_read_reference(
            contexts.last(),
            reference_count(#[trigger] contexts[k]),
        ) by {
            if k < last - 1 {
                assert(is_read_reference(
                    earlier_contexts.last(),
                    reference_count(earlier_contexts[k]),
                ));
                assert(reference_count(contexts[k]) < reference_count(contexts[last - 1]));
            }
        }
        if stores[0].materializes(helper) {
            assert(is_new_binding(
                earlier_contexts[0],
                helper,
                earlier_stores.last().loaded[helper].local,
                earlier_contexts.last(),
            ));
            assert(symbol_count(contexts[0]) < symbol_count(contexts[last - 1]));
        }
    }
}

/// A flush holds the import of every loaded helper exactly once: there is an
/// order of the loaded helpers in which the flush lists their imports, and in
/// it `helper` has one place.
pub proof fn law_flush_imports_each_helper_once(
    loaded: Map<Helper, LoadedHelperView>,
    imports: Seq<DefaultImportView>,
    helper: Helper,
)
    requires
        flushes(loaded, imports),
        loaded.contains_key(helper),
    ensures
        exists|order: Seq<Helper>, place: int|
            {
                &&& #[trigger] flushes_in(loaded, order, imports)
                &&& 0 <= place < order.len()
                &&& #[trigger] order[place] == helper
                &&& imports[place] == import_of(loaded[helper])
                &&& forall|other: int|
                    0 <= other < order.len() && order[other] == helper ==> other == place
            },
{
    let order = choose|order: Seq<Helper>| #[trigger] flushes_in(loaded, order, imports);
    assert(order.contains(helper));
    let place = choose|place: int| 0 <= place < order.len() && order[place] == helper;
    assert(flushes_in(loaded, order, imports) && order[place] == helper);
}

/// A flush holds as many imports as helpers are loaded, the import of every
/// one of them, and nothing else.
pub proof fn law_flush_counts_the_loaded_helpers(
    loaded: Map<Helper, LoadedHelperView>,
    imports: Seq<DefaultImportView>,
)
    requires
        flushes(loaded, imports),
    ensures
        loaded.dom().finite(),
        imports.len() == loaded.dom().len(),
        forall|helper: Helper| #[trigger]
            loaded.contains_key(helper) ==> imports.contains(import_of(loaded[helper])),
        forall|i: int| 0 <= i < imports.len() ==> imports_a_helper(loaded, #[trigger] imports[i]),
{
    let order = choose|order: Seq<Helper>| #[trigger] flushes_in(loaded, order, imports);
    assert(order.to_set() =~= loaded.dom());
    order.unique_seq_to_set();
    assert forall|helper: Helper| #[trigger] loaded.contains_key(helper) implies imports.contains(
        import_of(loaded[helper]),
    ) by {
        assert(order.contains(helper));
        let place = choose|place: int| 0 <= place < order.len() && order[place] == helper;
        assert(imports[place] == import_of(loaded[helper]));
    }
    assert forall|i: int| 0 <= i < imports.len() implies imports_a_helper(
        loaded,
        #[trigger] imports[i],
    ) by {
        assert(order.contains(order[i]));
        assert(loaded.contains_key(order[i]) && imports[i] == import_of(loaded[order[i]]));
    }
}

/// One helper, one import: a store in runtime mode that holds nothing and is
/// asked for one helper any number of times, at least once, flushes exactly
/// one import: the default import of the helper's path in the configured
/// module, bound to the one symbol that the requests gave the context.
pub proof fn law_one_helper_one_import(
    stores: Seq<StoreState>,
    contexts: Seq<TraverseCtx>,
    helpers: Seq<Helper>,
    helper: Helper,
    imports: Seq<DefaultImportView>,
)
    requires
        is_run(stores, contexts, helpers),
        helpers.len() >= 1,
        forall|k: int| 0 <= k < helpers.len() ==> #[trigger] helpers[k] == helper,
        stores[0].mode == HelperLoaderMode::Runtime,
        stores[0].loaded == Map::<Helper, LoadedHelperView>::empty(),
        flushes(stores.last().loaded, imports),
    ensures
        imports.len() == 1,
        imports[0].source == runtime_source_path(stores[0].module_name, helper.name_spec()),
        imports[0].local == stores.last().loaded[helper].local,
        imports[0].local.symbol_id == symbol_count(contexts[0]),
        !imports[0].type_only,
        symbol_count(contexts.last()) == symbol_count(contexts[0]) + 1,
{
    law_requests_refer_to_one_binding(stores, contexts, helpers, helper);
    let loaded = stores.last().loaded;
    assert(stores.last() == stores[1]);
    assert(loaded.dom() =~= set![helper]);
    law_flush_counts_the_loaded_helpers(loaded, imports);
    assert(imports_a_helper(loaded, imports[0]));
}

/// Helpers do not interfere: a request for one helper leaves what is
/// remembered of every other helper as it is, and a helper that the request
/// imports is remembered under the binding that the request gave it and with
/// the path of its own name, which ends in `/helpers/` and that name.
pub proof fn law_requests_touch_one_helper(
    store: StoreState,
    helper: Helper,
    fresh: LocalBindingView,
)
    ensures
        forall|other: Helper|
            other != helper ==> {
                &&& #[trigger] store.after_load(helper, fresh).loaded.contains_key(other)
                    == store.loaded.contains_key(other)
                &&& store.after_load(helper, fresh).loaded[other] == store.loaded[other]
            },
        store.materializes(helper) ==> {
            &&& store.after_load(helper, fresh).loaded.contains_key(helper)
            &&& store.after_load(helper, fresh).loaded[helper].local == fresh
            &&& store.after_load(helper, fresh).loaded[helper].source == runtime_source_path(
                store.module_name,
                helper.name_spec(),
            )
            &&& ends_with(
                store.after_load(helper, fresh).loaded[helper].source,
                "/helpers/"@ + helper.name_spec(),
            )
        },
{
    let path = runtime_source_path(store.module_name, helper.name_spec());
    let suffix = "/helpers/"@ + helper.name_spec();
    assert(path =~= store.module_name + suffix);
    assert(path.subrange(path.len() - suffix.len(), path.len() as int) =~= suffix);
}

/// Helpers do not interfere in a flush either: two loaded helpers have two
/// places in it, each with the helper's own import.
pub proof fn law_flush_keeps_helpers_apart(
    loaded: Map<Helper, LoadedHelperView>,
    imports: Seq<DefaultImportView>,
    first: Helper,
    second: Helper,
)
    requires
        flushes(loaded, imports),
        loaded.contains_key(first),
        loaded.contains_key(second),
    ensures
        first != second ==> exists|i: int, j: int|
            {
                &&& 0 <= i < imports.len()
                &&& 0 <= j < imports.len()
                &&& i != j
                &&& #[trigger] imports[i] == import_of(loaded[first])
                &&& #[trigger] imports[j] == import_of(loaded[second])
            },
{
    if first != second {
        let order = choose|order: Seq<Helper>| #[trigger] flushes_in(loaded, order, imports);
        assert(order.contains(first) && order.contains(second));
        let i = choose|i: int| 0 <= i < order.len() && order[i] == first;
        let j = choose|j: int| 0 <= j < order.len() && order[j] == second;
        assert(imports[i] == import_of(loaded[first]) && imports[j] == import_of(loaded[second]));
    }
}

/// New bindings collide with none: where every loaded helper is bound to a
/// symbol below `count` and a request binds its helper, if it imports it, to
/// the symbol `count`, that symbol is the binding of no helper loaded before,
/// and afterwards every loaded helper is bound to a symbol below `count + 1`.
pub proof fn law_new_bindings_do_not_collide(
    store: StoreState,
    helper: Helper,
    fresh: LocalBindingView,
    count: nat,
)
    requires
        store.symbols_within(count),
        fresh.symbol_id == count,
    ensures
        store.after_load(helper, fresh).symbols_within(count + 1),
        forall|other: Helper| #[trigger]
            store.loaded.contains_key(other) ==> store.loaded[other].local.symbol_id
                != fresh.symbol_id,
{
    let after = store.after_load(helper, fresh);
    assert forall|other: Helper| #[trigger]
        after.loaded.contains_key(other) implies after.loaded[other].local.symbol_id < count
        + 1 by {
        if other != helper || !store.materializes(helper) {
            assert(store.loaded.contains_key(other));
        }
    }
}

/// External mode keeps nothing: in that mode a run of requests, for whatever
/// helpers and however many, leaves the store as it was, gives the context no
/// symbol and leaves every name with its meaning. The context gets one
/// reference per request, and at the end of the run every one of these
/// references is a read bound to what the name of the global object meant
/// before the run, if it meant anything. A store that held nothing then
/// flushes nothing.
pub proof fn law_external_mode_is_pure(
    stores: Seq<StoreState>,
    contexts: Seq<TraverseCtx>,
    helpers: Seq<Helper>,
    imports: Seq<DefaultImportView>,
)
    requires
        is_run(stores, contexts, helpers),
        stores[0].mode == HelperLoaderMode::External,
    ensures
        forall|k: int| 0 <= k < stores.len() ==> #[trigger] stores[k] == stores[0],
        forall|k: int|
            0 <= k < contexts.len() ==> symbol_count(#[trigger] contexts[k]) == symbol_count(
                contexts[0],
            ),
        forall|k: int|
            0 <= k < contexts.len() ==> reference_count(#[trigger] contexts[k]) == reference_count(
                contexts[0],
            ) + k,
        forall|k: int, name: Seq<char>|
            0 <= k < contexts.len() ==> #[trigger] visible_binding(contexts[k], name)
                == visible_binding(contexts[0], name),
        forall|k: int|
            0 <= k < helpers.len() ==> reference_symbol(
                contexts.last(),
                reference_count(#[trigger] contexts[k]),
            ) == visible_binding(contexts[0], HELPER_VAR@),
        forall|k: int|
            0 <= k < helpers.len() ==> is_read_reference(
                contexts.last(),
                reference_count(#[trigger] contexts[k]),
            ),
        stores[0].loaded == Map::<Helper, LoadedHelperView>::empty() && flushes(
            stores.last().loaded,
            imports,
        ) ==> imports.len() == 0,
    decreases helpers.len(),
{
    if helpers.len() > 0 {
        let last = helpers.len() as int;
        lemma_run_without_last(stores, contexts, helpers);
        law_external_mode_is_pure(
            stores.drop_last(),
            contexts.drop_last(),
            helpers.drop_last(),
            imports,
        );
        assert(is_request(stores, contexts, helpers, last - 1));
        assert(stores.drop_last()[last - 1] == stores[last - 1]);
        assert(contexts.drop_last()[last - 1] == contexts[last - 1]);
        assert(stores.drop_last()[0] == stores[0] && contexts.drop_last()[0] == contexts[0]);
        assert forall|k: int| 0 <= k < stores.len() implies #[trigger] stores[k] == stores[0] by {
            if k < last {
                assert(stores.drop_last()[k] == stores[0]);
            }
        }
        assert forall|k: int| 0 <= k < contexts.len() implies symbol_count(
            #[trigger] contexts[k],
        ) == symbol_count(contexts[0]) by {
            if k < last {
                assert(symbol_count(contexts.drop_last()[k]) == symbol_count(contexts[0]));
            }
        }
        assert forall|k: int| 0 <= k < contexts.len() implies reference_count(
            #[trigger] contexts[k],
        ) == reference_count(contexts[0]) + k by {
            if k < last {
                assert(reference_count(contexts.drop_last()[k]) == reference_count(contexts[0])
                    + k);
            }
        }
        assert forall|k: int, name: Seq<char>| 0 <= k < contexts.len() implies #[trigger] visible_binding(
            contexts[k],
            name,
        ) == visible_binding(contexts[0], name) by {
            if k < last {
                assert(visible_binding(contexts.drop_last()[k], name) == visible_binding(
                    contexts[0],
                    name,
                ));
            } else {
                assert(visible_binding(contexts.drop_last()[last - 1], name) == visible_binding(
                    contexts[0],
                    name,
                ));
                assert(visible_binding(contexts[last], name) == visible_binding(
                    contexts[last - 1],
                    name,
                ));
            }
        }
        assert forall|k: int| 0 <= k < helpers.len() implies reference_symbol(
            contexts.last(),
            reference_count(#[trigger] contexts[k]),
        ) == visible_binding(contexts[0], HELPER_VAR@) && is_read_reference(
            contexts.last(),
            reference_count(contexts[k]),
        ) by {
            if k < last - 1 {
                assert(reference_symbol(
                    contexts.drop_last().last(),
                    reference_count(contexts.drop_last()[k]),
                ) == visible_binding(contexts[0], HELPER_VAR@));
                assert(is_read_reference(
                    contexts.drop_last().last(),
                    reference_count(contexts.drop_last()[k]),
                ));
                assert(contexts.drop_last().last() == contexts[last - 1]);
                assert(reference_count(contexts[k]) < reference_count(contexts[last - 1]));
            } else {
                assert(visible_binding(contexts.drop_last()[last - 1], HELPER_VAR@)
                    == visible_binding(contexts[0], HELPER_VAR@));
            }
        }
    }
    if stores[0].loaded == Map::<Helper, LoadedHelperView>::empty() && flushes(
        stores.last().loaded,
        imports,
    ) {
        law_flush_counts_the_loaded_helpers(stores.last().loaded, imports);
    }
}

/// A flush drains the store: after it the store holds nothing, and a second
/// flush, with no request in between, hands out no import and leaves the
/// store as the first flush left it.
pub proof fn law_second_flush_is_empty(store: StoreState, imports: Seq<DefaultImportView>)
    requires
        flushes(store.after_flush().loaded, imports),
    ensures
        store.after_flush().loaded == Map::<Helper, LoadedHelperView>::empty(),
        store.after_flush().after_flush() == store.after_flush(),
        imports.len() == 0,
{
    law_flush_counts_the_loaded_helpers(store.after_flush().loaded, imports);
}

/// Inline mode is not implemented: a store in that mode admits no request,
/// and the model of a request leaves such a store as it is.
pub proof fn law_inline_mode_admits_no_request(
    store: StoreState,
    helper: Helper,
    fresh: LocalBindingView,
    ctx: TraverseCtx,
)
    requires
        store.mode == HelperLoaderMode::Inline,
    ensures
        !store.can_load(helper, ctx),
        store.after_load(helper, fresh) == store,
{
}

} // verus!
