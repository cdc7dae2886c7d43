//! The closed set of helpers that a transform may ask for.

use vstd::prelude::*;

verus! {

/// Available helpers.
#[derive(Clone, Copy, PartialEq, Eq, Structural, PartialOrd, Ord, Hash, Debug)]
pub enum Helper {
    ObjectSpread2,
}

impl Helper {
    /// The canonical name of the helper, as a sequence of characters.
    pub open spec fn name_spec(self) -> Seq<char> {
        match self {
            Helper::ObjectSpread2 => "objectSpread2"@,
        }
    }

    /// The number under which the helper is filed in the cache.
    pub open spec fn key_spec(self) -> u32 {
        match self {
            Helper::ObjectSpread2 => 0,
        }
    }

    /// The helper that is filed under `key`, if there is one.
    pub open spec fn of_key(key: u32) -> Option<Helper> {
        if key == 0 {
            Some(Helper::ObjectSpread2)
        } else {
            None
        }
    }

    /// The canonical name: both the last segment of the helper's import path
    /// and the property under which the helper sits on the global object.
    pub fn name(self) -> (name: &'static str)
        ensures
            name@ == self.name_spec(),
    {
        match self {
            Helper::ObjectSpread2 => "objectSpread2",
        }
    }

    /// The number under which the helper is filed in the cache.
    pub fn key(self) -> (key: u32)
        ensures
            key == self.key_spec(),
    {
        match self {
            Helper::ObjectSpread2 => 0,
        }
    }

    /// Keys and helpers correspond one to one: a helper is found again under
    /// its key, and a key that leads to a helper is that helper's key.
    pub proof fn lemma_key_round_trip(helper: Helper, key: u32)
        ensures
            Helper::of_key(helper.key_spec()) == Some(helper),
            Helper::of_key(key) == Some(helper) ==> helper.key_spec() == key,
    {
    }
}

} // verus!
