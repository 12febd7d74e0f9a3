use vstd::prelude::*;

verus! {

/// `nix::unistd::Pid`, the identifier of a process, carried as it is.
#[verifier::external_type_specification]
#[verifier::external_body]
pub struct ExPid(nix::unistd::Pid);

/// The process identifier that `nix::unistd::Pid::from_raw` makes of `raw`.
pub uninterp spec fn pid_of(raw: i32) -> nix::unistd::Pid;

/// Calls `nix::unistd::Pid::from_raw`, which wraps the raw identifier as it
/// is: the same number always gives the same `Pid`.
#[verifier::external_body]
pub(crate) fn pid_from_raw(raw: i32) -> (pid: nix::unistd::Pid)
    ensures
        pid == pid_of(raw),
{
    nix::unistd::Pid::from_raw(raw)
}

/// The raw identifier that stands for the operating system's unsigned
/// process id: the same 32 bits read as a signed number.
pub open spec fn raw_id(os_id: u32) -> i32 {
    os_id as i32
}

/// An id below 2^31 keeps its value as a raw identifier; a larger one is
/// read as the negative number that has the same 32 bits.
pub proof fn lemma_raw_id_value(os_id: u32)
    ensures
        os_id <= 0x7fff_ffff ==> raw_id(os_id) == os_id,
        os_id > 0x7fff_ffff ==> raw_id(os_id) == os_id - 0x1_0000_0000,
{
    assert(os_id <= 0x7fff_ffffu32 ==> (os_id as i32) as i64 == os_id as i64) by (bit_vector);
    assert(os_id > 0x7fff_ffffu32 ==> (os_id as i32) as i64 == (os_id as i64) - 0x1_0000_0000i64)
        by (bit_vector);
}

} // verus!
