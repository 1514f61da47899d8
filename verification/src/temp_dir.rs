//! The temporary-directory guard: it owns the path of a freshly named
//! directory under the temp root and, on release, hands back that path so
//! the whole tree can be deleted. Because every guard draws an independent
//! random name, distinct guards own distinct slots.

use vstd::prelude::*;
use vstd::string::StringExecFns;
use crate::random_id::{ID_LEN, is_name_char, random_name};

verus! {

/// The shape of every temporary-directory path: the temp root, one path
/// separator, then a 10-character alphanumeric name.
pub open spec fn is_temp_path_under(path: Seq<char>, root: Seq<char>) -> bool {
    &&& path.len() == root.len() + 1 + ID_LEN
    &&& path.subrange(0, root.len() as int) == root
    &&& path[root.len() as int] == '/'
    &&& forall|i: int|
        root.len() + 1 <= i < path.len() ==> is_name_char(#[trigger] path[i])
}

/// A guard owning a freshly named directory path under the temp root.
/// Its view is that path's characters.
pub struct TmpDir {
    path: String,
}

impl View for TmpDir {
    type V = Seq<char>;

    closed spec fn view(&self) -> Seq<char> {
        self.path@
    }
}

impl TmpDir {
    /// Lay out a fresh temporary directory under `root`: draw a random
    /// 10-character name and join it to the root with a separator. The
    /// returned guard's path is where the directory is to be created; a
    /// creation that fails (a vanishingly rare name collision, a permission
    /// problem) is simply retried with a new guard, which draws a new name.
    pub fn new_under(root: &str) -> (d: TmpDir)
        ensures
            is_temp_path_under(d@, root@),
    {
        let name = random_name();
        let path = String::from_str(root).concat("/").concat(name.as_str());
        proof {
            reveal_strlit("/");
            assert(path@ =~= root@ + "/"@ + name@);
            assert(path@.subrange(0, root@.len() as int) =~= root@);
            assert forall|i: int|
                root@.len() + 1 <= i < path@.len() implies is_name_char(path@[i]) by {
                assert(path@[i] == name@[i - root@.len() - 1]);
            }
        }
        TmpDir { path }
    }

    /// Read access to the owned path while the guard is live, for I/O inside
    /// the directory.
    pub fn path(&self) -> (p: &String)
        ensures
            p@ == self@,
    {
        &self.path
    }

    /// Release: consume the guard and return the path whose directory tree
    /// is to be deleted recursively — exactly the path the guard was created
    /// with, which must not outlive it.
    pub fn release(self) -> (p: String)
        ensures
            p@ == self@,
    {
        self.path
    }
}

} // verus!
