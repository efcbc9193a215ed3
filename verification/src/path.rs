//! The path under which a todo is kept, made from its title.

use vstd::prelude::*;
use vstd::std_specs::iter::IteratorSpec;

verus! {

/// What `char::is_alphanumeric` answers for a character.
pub uninterp spec fn is_alphanumeric(c: char) -> bool;

/// `char::is_alphanumeric`: whether the character is a letter or a number by
/// the Unicode character database.
#[verifier::external_body]
fn alphanumeric(c: char) -> (b: bool)
    ensures
        b == is_alphanumeric(c),
{
    c.is_alphanumeric()
}

/// `String::push`: appends the character to the end of the string.
#[verifier::external_body]
fn push_char(text: &mut String, c: char)
    ensures
        final(text)@ == old(text)@.push(c),
{
    text.push(c)
}

/// A letter or a number stands for itself in a path, anything else is a dash.
pub open spec fn path_char(c: char) -> char {
    if is_alphanumeric(c) {
        c
    } else {
        '-'
    }
}

/// The path for a title: character by character, of the same length.
pub open spec fn spec_path(title: Seq<char>) -> Seq<char> {
    Seq::new(title.len(), |i: int| path_char(title[i]))
}

/// The path under which the todo with this title is kept.
pub fn path_from_title(title: &str) -> (path: String)
    ensures
        path@ == spec_path(title@),
{
    broadcast use vstd::string::group_string_axioms;

    let mut chars = title.chars();
    let mut path = String::new();
    let ghost mut done: int = 0;
    loop
        invariant
            chars.obeys_prophetic_iter_laws(),
            0 <= done <= title@.len(),
            chars.remaining() == title@.subrange(done, title@.len() as int),
            path@ == spec_path(title@.take(done)),
        decreases title@.len() - done,
    {
        match chars.next() {
            Some(c) => {
                push_char(&mut path, if alphanumeric(c) { c } else { '-' });
                proof {
                    assert(c == title@[done]);
                    assert(title@.subrange(done, title@.len() as int).drop_first()
                        =~= title@.subrange(done + 1, title@.len() as int));
                    assert(path@ =~= spec_path(title@.take(done + 1)));
                    done = done + 1;
                }
            },
            None => {
                assert(done == title@.len());
                assert(title@.take(done) =~= title@);
                return path;
            },
        }
    }
}

} // verus!
