//! Resolution and deduplication of references to shared runtime helpers.
//!
//! A transform pass that needs a helper function asks the
//! [`HelperLoaderStore`] for a callee expression. Depending on the configured
//! [`HelperLoaderMode`] the helper is imported once per program from a runtime
//! package, or read from a global `babelHelpers` object. Imports are handed out
//! in one batch when the traversal of the program ends.

pub mod arena;
pub mod ast;
pub mod cache;
pub mod context;
pub mod helper;
pub mod laws;
pub mod loader;
pub mod options;
pub mod store;

pub use cache::LoadedHelper;
pub use context::LocalBinding;
pub use helper::Helper;
pub use loader::HelperLoader;
pub use options::{default_as_module_name, HelperLoaderMode, HelperLoaderOptions};
pub use store::{DefaultImport, HelperLoaderStore};
