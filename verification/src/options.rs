//! Configuration of the helper loader.

use std::borrow::Cow;
use vstd::prelude::*;

verus! {

/// Defines the mode for loading helper functions.
#[derive(Clone, Copy, Debug, PartialEq, Eq, Structural)]
pub enum HelperLoaderMode {
    /// Helper functions are inserted directly into the program.
    ///
    /// This mode is not implemented; a store configured with it refuses to
    /// load anything.
    Inline,
    /// Helper functions are read from a global `babelHelpers` object:
    /// `babelHelpers.helperName(...arguments)`.
    External,
    /// Helper functions are imported from a runtime package:
    /// `import helperName from "@babel/runtime/helpers/helperName"`.
    Runtime,
}

impl Default for HelperLoaderMode {
    fn default() -> (mode: Self)
        ensures
            mode == HelperLoaderMode::Runtime,
    {
        HelperLoaderMode::Runtime
    }
}

/// Helper loader options.
#[derive(Debug)]
pub struct HelperLoaderOptions {
    /// The module name to import helper functions from.
    /// Default: `@babel/runtime`
    pub module_name: Cow<'static, str>,
    pub mode: HelperLoaderMode,
}

impl Default for HelperLoaderOptions {
    fn default() -> (options: Self)
        ensures
            options.module_name@ == default_module_name(),
            options.mode == HelperLoaderMode::Runtime,
    {
        HelperLoaderOptions { module_name: default_as_module_name(), mode: HelperLoaderMode::default() }
    }
}

impl Clone for HelperLoaderOptions {
    fn clone(&self) -> (options: Self)
        ensures
            options.module_name@ == self.module_name@,
            options.mode == self.mode,
    {
        HelperLoaderOptions { module_name: clone_module_name(&self.module_name), mode: self.mode }
    }
}

/// A copy of a module name: a borrowed name stays borrowed, an owned one is
/// duplicated.
pub(crate) fn clone_module_name(name: &Cow<'static, str>) -> (copy: Cow<'static, str>)
    ensures
        copy@ == name@,
{
    match name {
        Cow::Borrowed(text) => Cow::Borrowed(*text),
        Cow::Owned(text) => Cow::Owned(text.clone()),
    }
}

/// The text of a module name.
pub(crate) fn module_name_text<'b>(name: &'b Cow<'static, str>) -> (text: &'b str)
    ensures
        text@ == name@,
{
    match name {
        Cow::Borrowed(text) => text,
        Cow::Owned(text) => text.as_str(),
    }
}

/// The module that helpers are imported from unless the options name another.
pub open spec fn default_module_name() -> Seq<char> {
    "@babel/runtime"@
}

/// The module name that the options have by default.
pub fn default_as_module_name() -> (name: Cow<'static, str>)
    ensures
        name@ == default_module_name(),
{
    Cow::Borrowed("@babel/runtime")
}

} // verus!
