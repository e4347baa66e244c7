use vstd::prelude::*;

verus! {

/// The upper byte of a 16-bit value.
pub open spec fn high_byte(value: u16) -> u8 {
    (value / 256) as u8
}

/// The lower byte of a 16-bit value.
pub open spec fn low_byte(value: u16) -> u8 {
    (value % 256) as u8
}

/// The 16-bit value whose upper byte is `high` and whose lower byte is `low`.
pub open spec fn join_bytes(high: u8, low: u8) -> u16 {
    (high * 256 + low) as u16
}

/// The address `count` bytes after `addr`, counted round the 16-bit address
/// space: behind the last address comes the first.
pub open spec fn forward(addr: u16, count: u16) -> u16 {
    if addr + count > u16::MAX {
        (addr + count - 0x1_0000) as u16
    } else {
        (addr + count) as u16
    }
}

/// Splits a 16-bit value into its upper and lower byte.
pub fn high_and_low_value(value: u16) -> (halves: (u8, u8))
    ensures
        halves.0 == high_byte(value),
        halves.1 == low_byte(value),
{
    let high_val = ((value & 0xff00) >> 8) as u8;
    let low_val = (value & 0x00ff) as u8;
    assert(((value & 0xff00) >> 8) == value / 256) by (bit_vector);
    assert((value & 0x00ff) == value % 256) by (bit_vector);
    (high_val, low_val)
}

/// Combines two bytes into a 16-bit value, `high` first.
pub fn wide_value(high: u8, low: u8) -> (value: u16)
    ensures
        value == join_bytes(high, low),
{
    let shifted: u16 = (high as u16) << 8;
    assert(shifted == high * 256) by (bit_vector)
        requires
            shifted == (high as u16) << 8,
    ;
    shifted + low as u16
}

/// Splitting a 16-bit value and joining the two bytes again gives the value back.
pub proof fn lemma_split_then_join(value: u16)
    ensures
        join_bytes(high_byte(value), low_byte(value)) == value,
{
}

/// Joining two bytes and splitting the result gives the two bytes back.
pub proof fn lemma_join_then_split(high: u8, low: u8)
    ensures
        high_byte(join_bytes(high, low)) == high,
        low_byte(join_bytes(high, low)) == low,
{
}

/// The halves and the joined value, written with shifts and masks.
pub proof fn lemma_bytes_as_bits(value: u16, high: u8, low: u8)
    ensures
        high_byte(value) == (value >> 8) & 0xff,
        low_byte(value) == value & 0xff,
        join_bytes(high, low) == ((high as u16) << 8) | (low as u16),
{
    assert(value / 256 == (value >> 8) & 0xff) by (bit_vector);
    assert(value % 256 == value & 0xff) by (bit_vector);
    assert(high * 256 + low == ((high as u16) << 8) | (low as u16)) by (bit_vector);
}

} // verus!
