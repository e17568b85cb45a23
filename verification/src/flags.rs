//! The processor status byte and the rule by which result-producing
//! operations update it: bit 1 is the Zero flag, bit 7 the Negative flag,
//! and every other bit is left exactly as it was.

use vstd::prelude::*;

verus! {

/// Status byte after the Zero flag (bit 1) has been updated from a result
/// byte: set when the result is zero, cleared otherwise, via a masked
/// OR / AND that leaves every other bit alone.
pub open spec fn with_zero_flag(status: u8, result: u8) -> u8 {
    if result == 0 {
        status | 0b0000_0010
    } else {
        status & 0b1111_1101
    }
}

/// Status byte after the Negative flag (bit 7) has been updated from a
/// result byte: set when bit 7 of the result is set, cleared otherwise.
pub open spec fn with_negative_flag(status: u8, result: u8) -> u8 {
    if result & 0b1000_0000 != 0 {
        status | 0b1000_0000
    } else {
        status & 0b0111_1111
    }
}

/// Status byte after a flag-affecting operation produced `result`: the Zero
/// update followed by the Negative update, as the execution handlers apply
/// them.
pub open spec fn with_result_flags(status: u8, result: u8) -> u8 {
    with_negative_flag(with_zero_flag(status, result), result)
}

/// The Zero flag read out of a status byte.
pub open spec fn zero_flag_set(status: u8) -> bool {
    status & 0b0000_0010 != 0
}

/// The Negative flag read out of a status byte.
pub open spec fn negative_flag_set(status: u8) -> bool {
    status & 0b1000_0000 != 0
}

/// The flag law: after a flag update from a result byte, the Zero flag is
/// set iff the result is zero and the Negative flag is set iff bit 7 of the
/// result is set, whatever the flags held before; all status bits other
/// than Zero and Negative keep their prior values.
pub proof fn lemma_result_flag_law(status: u8, result: u8)
    ensures
        zero_flag_set(with_result_flags(status, result)) <==> result == 0,
        negative_flag_set(with_result_flags(status, result)) <==> result & 0b1000_0000 != 0,
        negative_flag_set(with_result_flags(status, result)) <==> result >= 0x80,
        with_result_flags(status, result) & 0b0111_1101 == status & 0b0111_1101,
{
    assert(result & 0b1000_0000u8 != 0 <==> result >= 0x80) by (bit_vector);
    if result == 0 {
        assert(result & 0b1000_0000u8 == 0) by (bit_vector)
            requires
                result == 0u8,
        ;
        assert(((status | 0b0000_0010u8) & 0b0111_1111u8) & 0b0000_0010u8 != 0) by (bit_vector);
        assert(((status | 0b0000_0010u8) & 0b0111_1111u8) & 0b1000_0000u8 == 0) by (bit_vector);
        assert(((status | 0b0000_0010u8) & 0b0111_1111u8) & 0b0111_1101u8 == status
            & 0b0111_1101u8) by (bit_vector);
    } else if result & 0b1000_0000 != 0 {
        assert(((status & 0b1111_1101u8) | 0b1000_0000u8) & 0b0000_0010u8 == 0) by (bit_vector);
        assert(((status & 0b1111_1101u8) | 0b1000_0000u8) & 0b1000_0000u8 != 0) by (bit_vector);
        assert(((status & 0b1111_1101u8) | 0b1000_0000u8) & 0b0111_1101u8 == status
            & 0b0111_1101u8) by (bit_vector);
    } else {
        assert(((status & 0b1111_1101u8) & 0b0111_1111u8) & 0b0000_0010u8 == 0) by (bit_vector);
        assert(((status & 0b1111_1101u8) & 0b0111_1111u8) & 0b1000_0000u8 == 0) by (bit_vector);
        assert(((status & 0b1111_1101u8) & 0b0111_1111u8) & 0b0111_1101u8 == status
            & 0b0111_1101u8) by (bit_vector);
    }
}

} // verus!
