//! CPU pinning: the CPU set that pins a thread to one core. Applying it to
//! the running thread is a system call, made by the caller.

use nix::sched::CpuSet;
use vstd::prelude::*;

verus! {

#[verifier::external_type_specification]
#[verifier::external_body]
pub struct ExCpuSet(CpuSet);

/// The CPUs a set holds.
pub uninterp spec fn cpu_set_members(s: CpuSet) -> Set<usize>;

/// The number of CPU ids a set can hold (ids `0..limit`).
pub uninterp spec fn cpu_set_limit(s: CpuSet) -> nat;

/// The number of CPU ids a set can hold on Linux: nix's `CpuSet::count()`,
/// eight times the size of libc's 128-byte `cpu_set_t`.
pub const CPU_SET_CAPACITY: usize = 1024;

/// The message with which an out-of-range CPU id is refused.
pub const INVALID_CPU: &'static str = "Invalid CPU index";

/// nix's `CpuSet::new`: an empty (zeroed) set, which holds the ids below
/// `CpuSet::count()`, 1024 on Linux targets (libc's `cpu_set_t` is 128 bytes there).
#[verifier::external_body]
fn cpu_set_new() -> (s: CpuSet)
    ensures
        cpu_set_members(s) == Set::<usize>::empty(),
        cpu_set_limit(s) == CPU_SET_CAPACITY,
{
    CpuSet::new()
}

/// nix's `CpuSet::set`: adds `cpu` to the set and reports success, or, where
/// `cpu` is not below the set's limit (`CpuSet::count()`), fails with
/// `EINVAL` and leaves the set as it was.
#[verifier::external_body]
fn cpu_set_add(s: &mut CpuSet, cpu: usize) -> (added: bool)
    ensures
        added == (cpu < cpu_set_limit(*old(s))),
        cpu_set_limit(*final(s)) == cpu_set_limit(*old(s)),
        added ==> cpu_set_members(*final(s)) == cpu_set_members(*old(s)).insert(cpu),
        !added ==> cpu_set_members(*final(s)) == cpu_set_members(*old(s)),
{
    s.set(cpu).is_ok()
}

/// The set that pins a thread to `cpu` alone, or the refusal of an id the
/// set cannot hold (one at or above `CPU_SET_CAPACITY`).
pub fn cpu_set_for(cpu: usize) -> (r: Result<CpuSet, &'static str>)
    ensures
        r is Ok <==> cpu < CPU_SET_CAPACITY,
        match r {
            Ok(s) => cpu_set_members(s) == set![cpu] && cpu < cpu_set_limit(s),
            Err(msg) => msg == INVALID_CPU,
        },
{
    let mut s = cpu_set_new();
    if cpu_set_add(&mut s, cpu) {
        Ok(s)
    } else {
        Err(INVALID_CPU)
    }
}

} // verus!
