use vstd::prelude::*;

verus! {

/// The 16-bit signed value of an unsigned 16-bit sample: the range is
/// shifted down by half, so silence (32768) maps to 0.
pub open spec fn u16_as_i16(s: u16) -> i16 {
    (s as int - 32768) as i16
}

/// Converts an unsigned 16-bit device sample to the signed encoding on disk.
pub fn convert_u16(s: u16) -> (r: i16)
    ensures
        r as int == s as int - 32768,
        r == u16_as_i16(s),
{
    (s as i32 - 32768) as i16
}

/// Signed 16-bit device samples are already in the encoding on disk.
pub fn convert_i16(s: i16) -> (r: i16)
    ensures
        r == s,
{
    s
}

} // verus!
