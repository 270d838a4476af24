//! Encoding of system call arguments and decoding of their results.
use vstd::prelude::*;

use crate::io::{Errno, Result};

verus! {

/// The highest error code the kernel returns, negated, from a system call.
pub const MAX_ERRNO: u16 = 4095;

/// Decodes the return value of a raw system call: an error where it lies in
/// `-4095..=-1`, and otherwise the value, read as unsigned.
pub fn ret(raw: i64) -> (r: Result<u64>)
    ensures
        -(MAX_ERRNO as int) <= raw <= -1 ==> (r matches Err(e) && e.wf() && e.raw_code() == -raw),
        !(-(MAX_ERRNO as int) <= raw <= -1) ==> r == Ok::<u64, Errno>(raw as u64),
{
    if raw >= -(MAX_ERRNO as i64) && raw <= -1 {
        let code = (-raw) as u16;
        Err(Errno::from_raw_os_error(code))
    } else {
        Ok(raw as u64)
    }
}

/// Decodes the return value of a C library call, which reports an error as
/// `-1` with its code in `errno`; `errno` is read only in that case.
pub fn ret_libc(raw: i64, errno: i32) -> (r: Result<u64>)
    requires
        raw == -1 ==> 0 < errno <= u16::MAX,
    ensures
        raw == -1 ==> (r matches Err(e) && e.wf() && e.raw_code() == errno),
        raw != -1 ==> r == Ok::<u64, Errno>(raw as u64),
{
    if raw == -1 {
        Err(Errno::from_raw_os_error(errno as u16))
    } else {
        Ok(raw as u64)
    }
}

/// The high 32 bits of `x`.
pub open spec fn spec_hi(x: u64) -> u32 {
    (x / 0x1_0000_0000) as u32
}

/// The low 32 bits of `x`.
pub open spec fn spec_lo(x: u64) -> u32 {
    (x % 0x1_0000_0000) as u32
}

/// Splits a 64-bit argument into the two 32-bit registers that a 32-bit
/// target passes it in, high half first.
pub fn hi_lo(x: u64) -> (r: (u32, u32))
    ensures
        r.0 == spec_hi(x),
        r.1 == spec_lo(x),
        r.0 as int * 0x1_0000_0000 + r.1 as int == x,
{
    let hi = (x >> 32) as u32;
    let lo = (x & 0xffff_ffff) as u32;
    assert(hi == spec_hi(x) && lo == spec_lo(x)) by (bit_vector)
        requires
            hi == (x >> 32u64) as u32,
            lo == (x & 0xffff_ffffu64) as u32,
    ;
    assert(x as int == (x as int / 0x1_0000_0000) * 0x1_0000_0000 + x as int % 0x1_0000_0000)
        by (nonlinear_arith);
    (hi, lo)
}

} // verus!
