//! The import stubs the bridge supplies to the module. Randomness is real;
//! every system-call stub is intentionally unimplemented and fails loudly,
//! never silently, if the module ever invokes it.

use vstd::prelude::*;

verus! {

/// The WASI errno the randomness stub reports when no random bytes could
/// be produced or delivered: an I/O error.
pub const WASI_EIO: i32 = 29;

/// The error every unimplemented system-call stub returns. The host
/// embedding turns it into a trap, so an unexpected invocation fails the
/// module call instead of passing unnoticed.
#[derive(Debug, Clone, Copy, PartialEq, Eq, Structural)]
pub struct UnimplementedSyscall;

/// Relies on `getrandom::getrandom`: on success the whole buffer is
/// filled with random bytes. Whether entropy is available depends on the
/// machine, so success is not promised.
#[verifier::external_body]
fn fill_random(len: usize) -> (r: Option<Vec<u8>>)
    ensures
        r matches Some(v) ==> v@.len() == len,
{
    let mut buf = vec![0u8; len];
    match getrandom::getrandom(&mut buf) {
        Ok(()) => Some(buf),
        Err(_) => None,
    }
}

/// Produces the random bytes the module asks for: exactly `buf_len` of
/// them, or the I/O errno when the machine yields no entropy. The host
/// embedding writes the bytes into the module's memory at the requested
/// pointer.
pub fn random_get(buf_len: usize) -> (r: Result<Vec<u8>, i32>)
    ensures
        r matches Ok(v) ==> v@.len() == buf_len,
        r is Err ==> r == Err::<Vec<u8>, i32>(WASI_EIO),
{
    match fill_random(buf_len) {
        Some(v) => Ok(v),
        None => Err(WASI_EIO),
    }
}

pub fn clock_time_get(_clock_id: i32, _precision: i64, _time_ptr: i32) -> (r: Result<
    i32,
    UnimplementedSyscall,
>)
    ensures
        r == Err::<i32, UnimplementedSyscall>(UnimplementedSyscall),
{
    Err(UnimplementedSyscall)
}

pub fn proc_exit(_code: i32) -> (r: Result<(), UnimplementedSyscall>)
    ensures
        r == Err::<(), UnimplementedSyscall>(UnimplementedSyscall),
{
    Err(UnimplementedSyscall)
}

pub fn fd_write(_fd: i32, _iovs_ptr: i32, _iovs_len: i32, _nwritten_ptr: i32) -> (r: Result<
    i32,
    UnimplementedSyscall,
>)
    ensures
        r == Err::<i32, UnimplementedSyscall>(UnimplementedSyscall),
{
    Err(UnimplementedSyscall)
}

pub fn fd_seek(_fd: i32, _offset: i64, _whence: i32, _new_offset_ptr: i32) -> (r: Result<
    i32,
    UnimplementedSyscall,
>)
    ensures
        r == Err::<i32, UnimplementedSyscall>(UnimplementedSyscall),
{
    Err(UnimplementedSyscall)
}

pub fn fd_read(_fd: i32, _iovs_ptr: i32, _iovs_len: i32, _nread_ptr: i32) -> (r: Result<
    i32,
    UnimplementedSyscall,
>)
    ensures
        r == Err::<i32, UnimplementedSyscall>(UnimplementedSyscall),
{
    Err(UnimplementedSyscall)
}

pub fn fd_fdstat_get(_fd: i32, _stat_ptr: i32) -> (r: Result<i32, UnimplementedSyscall>)
    ensures
        r == Err::<i32, UnimplementedSyscall>(UnimplementedSyscall),
{
    Err(UnimplementedSyscall)
}

pub fn fd_close(_fd: i32) -> (r: Result<i32, UnimplementedSyscall>)
    ensures
        r == Err::<i32, UnimplementedSyscall>(UnimplementedSyscall),
{
    Err(UnimplementedSyscall)
}

pub fn environ_sizes_get(_count_ptr: i32, _size_ptr: i32) -> (r: Result<i32, UnimplementedSyscall>)
    ensures
        r == Err::<i32, UnimplementedSyscall>(UnimplementedSyscall),
{
    Err(UnimplementedSyscall)
}

pub fn environ_get(_environ_ptr: i32, _buf_ptr: i32) -> (r: Result<i32, UnimplementedSyscall>)
    ensures
        r == Err::<i32, UnimplementedSyscall>(UnimplementedSyscall),
{
    Err(UnimplementedSyscall)
}

pub fn set_data(_key_ptr: i32, _data_ptr: i32, _data_len: i32) -> (r: Result<
    (),
    UnimplementedSyscall,
>)
    ensures
        r == Err::<(), UnimplementedSyscall>(UnimplementedSyscall),
{
    Err(UnimplementedSyscall)
}

pub fn get_data(_key_ptr: i32, _length_ptr: i32) -> (r: Result<i32, UnimplementedSyscall>)
    ensures
        r == Err::<i32, UnimplementedSyscall>(UnimplementedSyscall),
{
    Err(UnimplementedSyscall)
}

pub fn env_load_verifier_crs() -> (r: Result<i32, UnimplementedSyscall>)
    ensures
        r == Err::<i32, UnimplementedSyscall>(UnimplementedSyscall),
{
    Err(UnimplementedSyscall)
}

pub fn env_load_prover_crs(_num_points: i32) -> (r: Result<i32, UnimplementedSyscall>)
    ensures
        r == Err::<i32, UnimplementedSyscall>(UnimplementedSyscall),
{
    Err(UnimplementedSyscall)
}

} // verus!
