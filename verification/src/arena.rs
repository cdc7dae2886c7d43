//! Strings that are built in the arena of the syntax tree.

use oxc_allocator::String as ArenaString;
use oxc_traverse::TraverseCtx;
use vstd::prelude::*;
use vstd::utf8::encode_utf8;

verus! {

#[verifier::external_type_specification]
#[verifier::external_body]
pub struct ExArenaString<'bump>(ArenaString<'bump>);

/// The text that an arena string holds.
pub uninterp spec fn arena_text(string: ArenaString) -> Seq<char>;

/// The number of bytes that an arena string has room for without moving.
pub uninterp spec fn arena_room(string: ArenaString) -> nat;

/// `String::with_capacity_in` on the arena of the context: an empty string
/// with room for `capacity` bytes.
///
/// Taken on trust: the string is empty and has the room asked for. No object
/// is larger than `isize::MAX` bytes, hence the precondition.
#[verifier::external_body]
pub(crate) fn arena_string_with_capacity<'a>(ctx: &TraverseCtx<'a>, capacity: usize) -> (string:
    ArenaString<'a>)
    requires
        capacity <= isize::MAX,
    ensures
        arena_text(string) == Seq::<char>::empty(),
        arena_room(string) == capacity,
{
    ArenaString::with_capacity_in(capacity, ctx.ast.allocator)
}

/// `String::push_str`: appends `part` to the string.
///
/// Taken on trust: the text afterwards is the text before, followed by
/// `part`, and the room stays as it is. This is claimed only of a string
/// that has room for `part`, which is then copied in place; a string without
/// room would be moved and given more, hence the precondition.
#[verifier::external_body]
pub(crate) fn arena_string_push_str<'a>(string: &mut ArenaString<'a>, part: &str)
    requires
        encode_utf8(arena_text(*old(string))).len() + encode_utf8(part@).len() <= arena_room(
            *old(string),
        ),
    ensures
        arena_text(*final(string)) == arena_text(*old(string)) + part@,
        arena_room(*final(string)) == arena_room(*old(string)),
{
    string.push_str(part)
}

/// `String::into_bump_str`: gives up the string and returns its text, which
/// lives as long as the arena.
#[verifier::external_body]
pub(crate) fn arena_string_into_str<'a>(string: ArenaString<'a>) -> (text: &'a str)
    ensures
        text@ == arena_text(string),
{
    string.into_bump_str()
}

/// The bytes of a text in two parts are the bytes of the first part followed
/// by the bytes of the second.
pub proof fn lemma_encode_utf8_concat(first: Seq<char>, second: Seq<char>)
    ensures
        encode_utf8(first + second) == encode_utf8(first) + encode_utf8(second),
    decreases first.len(),
{
    if first.len() == 0 {
        assert(first + second =~= second);
        assert(encode_utf8(first) + encode_utf8(second) =~= encode_utf8(second));
    } else {
        assert((first + second).drop_first() =~= first.drop_first() + second);
        lemma_encode_utf8_concat(first.drop_first(), second);
        assert(encode_utf8(first + second) =~= encode_utf8(first) + encode_utf8(second));
    }
}

} // verus!
