//! Loading a program: what it leaves of the font.

use crate::cpu::{font_image, overlaid, FONT};
use vstd::prelude::*;

verus! {

/// A program that is loaded clear of the font leaves the font where it is:
/// at the start of memory.
pub proof fn lemma_font_kept(size: nat, program_address: int, rom: Seq<u8>, address: int)
    requires
        FONT.len() <= program_address,
        0 <= address < FONT.len() <= size,
    ensures
        overlaid(font_image(size), program_address, rom)[address] == FONT[address],
{
}

} // verus!
