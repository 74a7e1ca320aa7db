//! The input mode of a Windows console while a question is asked.

use vstd::prelude::*;

verus! {

/// Control characters are handled by the system.
pub const PROCESSED_INPUT: u32 = 0x1;

/// Input is read line by line.
pub const LINE_INPUT: u32 = 0x2;

/// Input is echoed.
pub const ECHO_INPUT: u32 = 0x4;

/// The flags without which a line cannot be read as people expect.
pub open spec fn cooked_flags() -> u32 {
    PROCESSED_INPUT | LINE_INPUT | ECHO_INPUT
}

/// The mode to set before a line is read: the present one with the three flags added, or none
/// where they are all set already.
pub fn cooked_mode(present: u32) -> (mode: Option<u32>)
    ensures
        mode is None <==> present & cooked_flags() == cooked_flags(),
        mode matches Some(mode) ==> mode == present | cooked_flags(),
{
    let cooked: u32 = present | (PROCESSED_INPUT | LINE_INPUT | ECHO_INPUT);
    assert(cooked == present <==> present & (0x1u32 | 0x2u32 | 0x4u32) == (0x1u32 | 0x2u32 | 0x4u32))
        by (bit_vector)
        requires
            cooked == present | (0x1u32 | 0x2u32 | 0x4u32),
    ;
    if cooked != present {
        Some(cooked)
    } else {
        None
    }
}

/// The mode to restore after the line was read: the one before, if it was read and another one was
/// set.
pub fn mode_to_restore(before: Option<u32>, set: bool) -> (mode: Option<u32>)
    ensures
        mode == (if set {
            before
        } else {
            None
        }),
{
    if set {
        before
    } else {
        None
    }
}

/// Cooked input has all three flags, keeps every other flag, and needs no further change.
pub proof fn law_cooked_input_only_adds_its_flags(present: u32, flag: u32)
    ensures
        (present | cooked_flags()) & cooked_flags() == cooked_flags(),
        flag & cooked_flags() == 0 ==> (present | cooked_flags()) & flag == present & flag,
        (present | cooked_flags()) | cooked_flags() == present | cooked_flags(),
{
    let cooked = cooked_flags();
    assert((present | cooked) & cooked == cooked) by (bit_vector);
    assert(flag & cooked == 0 ==> (present | cooked) & flag == present & flag) by (bit_vector);
    assert((present | cooked) | cooked == present | cooked) by (bit_vector);
}

/// The three flags are the lowest bits: processed input, line input and echo, one each.
pub proof fn law_the_flags_are_the_three_lowest_bits()
    ensures
        cooked_flags() == 7,
        PROCESSED_INPUT == 1,
        LINE_INPUT == 2,
        ECHO_INPUT == 4,
{
    assert(0x1u32 | 0x2u32 | 0x4u32 == 7u32) by (bit_vector);
}

} // verus!
