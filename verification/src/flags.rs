//! The fixed namespace-isolation flag word for the clone call.
//!
//! The probe always requests a fresh user, cgroup, IPC, network, mount, PID
//! and UTS namespace, and asks the kernel to deliver the standard
//! child-termination signal so that the parent's wait call can observe the
//! child. The flag values are the Linux `clone(2)` ABI constants.

use vstd::prelude::*;

verus! {

/// New mount namespace (`CLONE_NEWNS`).
pub const NEW_MOUNT_NS: u64 = 0x20000;
/// New cgroup namespace (`CLONE_NEWCGROUP`).
pub const NEW_CGROUP_NS: u64 = 0x2000000;
/// New UTS namespace (`CLONE_NEWUTS`).
pub const NEW_UTS_NS: u64 = 0x4000000;
/// New IPC namespace (`CLONE_NEWIPC`).
pub const NEW_IPC_NS: u64 = 0x8000000;
/// New user namespace (`CLONE_NEWUSER`).
pub const NEW_USER_NS: u64 = 0x10000000;
/// New PID namespace (`CLONE_NEWPID`).
pub const NEW_PID_NS: u64 = 0x20000000;
/// New network namespace (`CLONE_NEWNET`).
pub const NEW_NET_NS: u64 = 0x40000000;
/// The child-termination signal number (`SIGCHLD`); the low byte of the
/// flag word tells the kernel which signal to deliver on child exit.
/// Without it the parent's wait call fails with "no child process".
pub const CHILD_EXIT_SIGNAL: u64 = 17;

/// The complete flag word: every namespace-isolation flag plus the
/// child-termination signal.
pub open spec fn namespace_flags_spec() -> u64 {
    NEW_MOUNT_NS | NEW_CGROUP_NS | NEW_UTS_NS | NEW_IPC_NS | NEW_USER_NS
        | NEW_PID_NS | NEW_NET_NS | CHILD_EXIT_SIGNAL
}

/// Whether every bit of `flag` is set in `word`.
pub open spec fn has_flag(word: u64, flag: u64) -> bool {
    word & flag == flag
}

/// Returns the flag word for the clone call: all seven namespace-isolation
/// flags combined with child-termination-signal delivery. There is no
/// partial-isolation mode.
pub fn clone_flags() -> (r: u64)
    ensures
        r == namespace_flags_spec(),
{
    NEW_MOUNT_NS | NEW_CGROUP_NS | NEW_UTS_NS | NEW_IPC_NS | NEW_USER_NS
        | NEW_PID_NS | NEW_NET_NS | CHILD_EXIT_SIGNAL
}

/// The flag word requests every one of the seven namespaces, and its signal
/// byte is exactly the child-termination signal.
pub proof fn lemma_flags_isolate_every_namespace()
    ensures
        has_flag(namespace_flags_spec(), NEW_MOUNT_NS),
        has_flag(namespace_flags_spec(), NEW_CGROUP_NS),
        has_flag(namespace_flags_spec(), NEW_UTS_NS),
        has_flag(namespace_flags_spec(), NEW_IPC_NS),
        has_flag(namespace_flags_spec(), NEW_USER_NS),
        has_flag(namespace_flags_spec(), NEW_PID_NS),
        has_flag(namespace_flags_spec(), NEW_NET_NS),
        namespace_flags_spec() & 0xff == CHILD_EXIT_SIGNAL,
{
    assert(namespace_flags_spec()
        == (0x20000u64 | 0x2000000 | 0x4000000 | 0x8000000 | 0x10000000 | 0x20000000
            | 0x40000000 | 17));
    let w = (0x20000u64 | 0x2000000 | 0x4000000 | 0x8000000 | 0x10000000 | 0x20000000
        | 0x40000000 | 17);
    assert((w & 0x20000u64 == 0x20000) && (w & 0x2000000u64 == 0x2000000)
        && (w & 0x4000000u64 == 0x4000000) && (w & 0x8000000u64 == 0x8000000)
        && (w & 0x10000000u64 == 0x10000000) && (w & 0x20000000u64 == 0x20000000)
        && (w & 0x40000000u64 == 0x40000000) && (w & 0xffu64 == 17)) by (bit_vector)
        requires w == (0x20000u64 | 0x2000000 | 0x4000000 | 0x8000000 | 0x10000000
            | 0x20000000 | 0x40000000 | 17);
}

} // verus!
