//! Glyph codes of the terminal's font.

use vstd::prelude::*;

verus! {

/// The code that the terminal's code page 437 font gives to a character.
pub uninterp spec fn cp437(c: char) -> u16;

/// Calls `bracket_lib::prelude::to_cp437`, which looks the character up in a
/// fixed table and depends on nothing else. The contract only gives that
/// result its name.
#[verifier::external_body]
pub(crate) fn to_cp437(c: char) -> (code: u16)
    ensures
        code == cp437(c),
{
    bracket_lib::prelude::to_cp437(c)
}

} // verus!
