//! Process-group cleanup: on cancellation or exit, every helper process this
//! system spawns is terminated, every ephemeral mountpoint is force-unmounted
//! by its naming pattern, and finally the whole process group is terminated.
//! The guard makes the protocol idempotent: only the first request yields the
//! action sequence, every later one yields nothing.

use vstd::prelude::*;

verus! {

/// One step of the cleanup protocol, in the order it must run.
#[derive(Clone, Copy, Debug, PartialEq, Eq, Structural)]
pub enum CleanupAction {
    /// Terminate the payload splitter.
    TerminateSplitter,
    /// Terminate the archive extractor, which is also the bulk-copy tool.
    TerminateExtractor,
    /// Force-unmount every mountpoint matching the ephemeral naming pattern.
    UnmountEphemeral,
    /// Terminate the whole process group so no helper survives the parent.
    TerminateProcessGroup,
}

/// The full cleanup sequence, in order.
pub open spec fn spec_cleanup_sequence() -> Seq<CleanupAction> {
    seq![
        CleanupAction::TerminateSplitter,
        CleanupAction::TerminateExtractor,
        CleanupAction::UnmountEphemeral,
        CleanupAction::TerminateProcessGroup,
    ]
}

/// Remembers whether cleanup has already been handed out.
pub struct CleanupGuard {
    executed: bool,
}

impl CleanupGuard {
    /// Whether cleanup has already been handed out once.
    pub closed spec fn spec_executed(&self) -> bool {
        self.executed
    }

    /// A fresh guard that has not yet handed out cleanup.
    pub fn new() -> (r: CleanupGuard)
        ensures
            !r.spec_executed(),
    {
        CleanupGuard { executed: false }
    }

    /// Hands out the cleanup actions. Idempotent: the first call yields the
    /// full sequence, any later call yields no action at all, so invoking
    /// cleanup twice has no observable effect beyond the first invocation.
    pub fn actions(&mut self) -> (r: Vec<CleanupAction>)
        ensures
            final(self).spec_executed(),
            !old(self).spec_executed() ==> r@ == spec_cleanup_sequence(),
            old(self).spec_executed() ==> r@ == Seq::<CleanupAction>::empty(),
    {
        if self.executed {
            let r = Vec::new();
            proof {
                assert(r@ =~= Seq::<CleanupAction>::empty());
            }
            return r;
        }
        self.executed = true;
        let mut r = Vec::new();
        r.push(CleanupAction::TerminateSplitter);
        r.push(CleanupAction::TerminateExtractor);
        r.push(CleanupAction::UnmountEphemeral);
        r.push(CleanupAction::TerminateProcessGroup);
        proof {
            assert(r@ =~= spec_cleanup_sequence());
        }
        r
    }
}

/// What an action acts on: the process name to terminate, or the mountpoint
/// pattern to unmount. The process-group termination addresses the caller's
/// own group and needs no name.
pub fn cleanup_target(a: &CleanupAction) -> (r: Option<&'static str>)
    ensures
        match a {
            CleanupAction::TerminateSplitter => r matches Some(s) && s@ == "wimlib-imagex"@,
            CleanupAction::TerminateExtractor => r matches Some(s) && s@ == "7z"@,
            CleanupAction::UnmountEphemeral => r matches Some(s) && s@ == "/tmp/windusb_*"@,
            CleanupAction::TerminateProcessGroup => r is None,
        },
{
    match a {
        CleanupAction::TerminateSplitter => Some("wimlib-imagex"),
        CleanupAction::TerminateExtractor => Some("7z"),
        CleanupAction::UnmountEphemeral => Some("/tmp/windusb_*"),
        CleanupAction::TerminateProcessGroup => None,
    }
}

} // verus!
