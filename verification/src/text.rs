//! Text as sequences of characters.

use vstd::prelude::*;

verus! {

/// A result whose value is a text, with the text as a sequence of characters.
pub open spec fn text_of<E>(result: Result<String, E>) -> Result<Seq<char>, E> {
    match result {
        Ok(text) => Ok(text@),
        Err(error) => Err(error),
    }
}

/// `String::push`: the character is added at the end of the text and nothing
/// else changes.
#[verifier::external_body]
pub(crate) fn push_char(text: &mut String, c: char)
    ensures
        final(text)@ == old(text)@.push(c),
{
    text.push(c);
}

} // verus!
