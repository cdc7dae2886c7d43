use std::borrow::Cow;

use helper_loader::{
    default_as_module_name, Helper, HelperLoaderMode, HelperLoaderOptions, HelperLoaderStore,
};

#[test]
fn helper_name_is_canonical() {
    assert_eq!(Helper::ObjectSpread2.name(), "objectSpread2");
}

#[test]
fn helper_key_is_stable() {
    assert_eq!(Helper::ObjectSpread2.key(), 0);
}

#[test]
fn default_mode_is_runtime() {
    assert_eq!(HelperLoaderMode::default(), HelperLoaderMode::Runtime);
}

#[test]
fn default_module_name_is_babel_runtime() {
    assert_eq!(default_as_module_name(), "@babel/runtime");
    assert!(matches!(default_as_module_name(), Cow::Borrowed(_)));
}

#[test]
fn default_options_are_runtime_from_babel_runtime() {
    let options = HelperLoaderOptions::default();
    assert_eq!(options.module_name, "@babel/runtime");
    assert_eq!(options.mode, HelperLoaderMode::Runtime);
}

#[test]
fn cloned_options_keep_both_fields() {
    let options = HelperLoaderOptions {
        module_name: Cow::Owned(String::from("my-runtime")),
        mode: HelperLoaderMode::External,
    };
    let copy = options.clone();
    assert_eq!(copy.module_name, "my-runtime");
    assert_eq!(copy.mode, HelperLoaderMode::External);
    assert_eq!(options.module_name, "my-runtime");
}

#[test]
fn new_store_copies_an_owned_module_name() {
    let options = HelperLoaderOptions {
        module_name: Cow::Owned(String::from("owned-runtime")),
        mode: HelperLoaderMode::Runtime,
    };
    let store = HelperLoaderStore::new(&options);
    drop(options);
    assert_eq!(store.module_name(), "owned-runtime");
}

#[test]
fn new_store_takes_mode_and_holds_nothing() {
    for mode in [HelperLoaderMode::Runtime, HelperLoaderMode::External, HelperLoaderMode::Inline] {
        let options = HelperLoaderOptions { module_name: Cow::Borrowed("m"), mode };
        let store = HelperLoaderStore::new(&options);
        assert_eq!(store.mode(), mode);
        assert_eq!(store.module_name(), "m");
        assert!(store.loaded(Helper::ObjectSpread2).is_none());
    }
}

#[test]
fn inline_store_admits_no_request() {
    let allocator = oxc_allocator::Allocator::default();
    let program = oxc_parser::Parser::new(&allocator, "", oxc_span::SourceType::default())
        .parse()
        .program;
    let semantic = oxc_semantic::SemanticBuilder::new().build(&program).semantic;
    let (symbols, scopes) = semantic.into_symbol_table_and_scope_tree();
    let ctx = oxc_traverse::TraverseCtx::new(scopes, symbols, &allocator);
    let inline = HelperLoaderStore::new(&HelperLoaderOptions {
        module_name: Cow::Borrowed("@babel/runtime"),
        mode: HelperLoaderMode::Inline,
    });
    assert!(!inline.admits(Helper::ObjectSpread2, &ctx));
    assert!(inline.loaded(Helper::ObjectSpread2).is_none());
    for mode in [HelperLoaderMode::Runtime, HelperLoaderMode::External] {
        let store = HelperLoaderStore::new(&HelperLoaderOptions {
            module_name: Cow::Borrowed("@babel/runtime"),
            mode,
        });
        assert!(store.admits(Helper::ObjectSpread2, &ctx));
    }
}
