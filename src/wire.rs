use vstd::prelude::*;

verus! {

/// The event-type discriminator: bits 48 to 63.
pub open spec fn wire_type(e: u64) -> int {
    e as int / 0x1_0000_0000_0000
}

/// The code: bits 32 to 47.
pub open spec fn wire_code(e: u64) -> int {
    (e as int / 0x1_0000_0000) % 0x1_0000
}

/// The value: bits 0 to 31, read as an unsigned number.
pub open spec fn wire_value(e: u64) -> int {
    e as int % 0x1_0000_0000
}

/// The value: bits 0 to 31, read as a two's-complement 32-bit number.
pub open spec fn signed_value(e: u64) -> int {
    if wire_value(e) < 0x8000_0000 {
        wire_value(e)
    } else {
        wire_value(e) - 0x1_0000_0000
    }
}

/// Splits an encoded event into its discriminator, code and raw value.
pub fn split_event(event: u64) -> (r: (u64, u64, u64))
    ensures
        r.0 == wire_type(event),
        r.1 == wire_code(event),
        r.2 == wire_value(event),
{
    let dtype = event >> 48;
    let code = (event >> 32) & 0xffff;
    let value = event & 0xffff_ffff;
    assert(dtype == event / 0x1_0000_0000_0000) by (bit_vector)
        requires
            dtype == event >> 48,
    ;
    assert(code == (event / 0x1_0000_0000) % 0x1_0000) by (bit_vector)
        requires
            code == (event >> 32) & 0xffff,
    ;
    assert(value == event % 0x1_0000_0000) by (bit_vector)
        requires
            value == event & 0xffff_ffff,
    ;
    (dtype, code, value)
}

/// Reads a raw 32-bit value as a two's-complement number.
pub fn to_signed(raw: u64) -> (r: i32)
    requires
        raw < 0x1_0000_0000,
    ensures
        r == if raw < 0x8000_0000 { raw as int } else { raw - 0x1_0000_0000 },
{
    if raw < 0x8000_0000 {
        raw as i32
    } else {
        (raw as i64 - 0x1_0000_0000) as i32
    }
}

} // verus!
