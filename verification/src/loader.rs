//! The hook that runs when the traversal of a program ends.

use crate::store::{flushes, import_views, DefaultImport, HelperLoaderStore};
use vstd::prelude::*;

verus! {

/// Helper loader transform: what is left to do for the helpers when the
/// traversal of a program ends.
pub struct HelperLoader<'a, 'ctx> {
    /// The store that the loader flushes.
    pub store: &'ctx mut HelperLoaderStore<'a>,
}

impl<'a, 'ctx> HelperLoader<'a, 'ctx> {
    /// A loader for the given store, which it holds until it has run.
    pub fn new(store: &'ctx mut HelperLoaderStore<'a>) -> (loader: Self)
        ensures
            *loader.store == *old(store),
            *final(loader.store) == *final(store),
    {
        Self { store }
    }

    /// Flushes the store at the end of the program: empties it and returns
    /// the import of every helper that was loaded, each once, in no
    /// particular order. The caller adds them to the program.
    pub fn exit_program(self) -> (imports: Vec<DefaultImport<'a>>)
        requires
            old(self.store).wf(),
        ensures
            final(self.store).wf(),
            final(self.store)@ == old(self.store)@.after_flush(),
            flushes(old(self.store)@.loaded, import_views(imports@)),
    {
        self.store.add_imports()
    }
}

} // verus!
