//! The working-directory guard: it captures the directory in effect before a
//! switch and, on release, hands back exactly that directory to return to.

use vstd::prelude::*;

verus! {

/// The working directory that a switch leaves in effect: exactly the
/// switch's target.
pub open spec fn dir_after_switch(cwd: Seq<char>, target: Seq<char>) -> Seq<char> {
    target
}

/// Law: switching from `cwd` to any `target` and then switching back to the
/// captured `cwd` leaves the working directory exactly as it was before the
/// first switch — whatever `target` was, and whether or not it lies under
/// `cwd`.
pub proof fn lemma_switch_then_restore_is_identity(cwd: Seq<char>, target: Seq<char>)
    ensures
        dir_after_switch(dir_after_switch(cwd, target), cwd) == cwd,
{
}

/// A guard holding the working directory that was in effect before the
/// switch. Its view is that captured path's characters.
pub struct CurrentDir {
    prior: String,
}

impl View for CurrentDir {
    type V = Seq<char>;

    closed spec fn view(&self) -> Seq<char> {
        self.prior@
    }
}

impl CurrentDir {
    /// Build the guard. `prior` is the working directory read immediately
    /// before switching away from it — the capture happens strictly before
    /// the switch, so a failed switch leaves nothing to undo.
    pub fn capture(prior: String) -> (g: CurrentDir)
        ensures
            g@ == prior@,
    {
        CurrentDir { prior }
    }

    /// Read access to the captured prior directory while the guard is live.
    pub fn prior_dir(&self) -> (p: &String)
        ensures
            p@ == self@,
    {
        &self.prior
    }

    /// Release: consume the guard and return the directory to switch back
    /// to — exactly the one in effect when the guard was created, whatever
    /// directory was switched to in between.
    pub fn release(self) -> (p: String)
        ensures
            p@ == self@,
    {
        self.prior
    }
}

} // verus!
