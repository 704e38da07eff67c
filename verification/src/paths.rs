//! Path resolver: derives the filesystem locations the worker needs from the
//! two base directories the host supplies, and names the directories that
//! must exist before the worker is launched.

use vstd::prelude::*;
use vstd::string::StrSliceExecFns;
use vstd::string::StringExecFns;

verus! {

/// The characters of `base`, a separator, then the characters of `comp`.
pub open spec fn joined(base: Seq<char>, comp: Seq<char>) -> Seq<char> {
    base + seq!['/'] + comp
}

/// Appends one path component to a base path behind a `/` separator.
pub fn join_path(base: &str, comp: &str) -> (r: String)
    ensures
        r@ == joined(base@, comp@),
{
    let mut r = base.to_owned();
    r.append("/");
    r.append(comp);
    proof {
        reveal_strlit("/");
        assert(r@ =~= joined(base@, comp@));
    }
    r
}

/// Every filesystem location the worker depends on. `resource_dir` is the
/// read-only installation directory; the rest hang off the per-user writable
/// `app_data_dir` and are created (if absent) before launch.
pub struct ResolvedPaths {
    pub resource_dir: String,
    pub app_data_dir: String,
    pub storage_dir: String,
    pub memory_dir: String,
    pub database_file: String,
}

impl ResolvedPaths {
    /// The derived locations are exactly the fixed children of `app_data_dir`.
    pub open spec fn wf(&self) -> bool {
        &&& self.storage_dir@ == joined(self.app_data_dir@, "storage"@)
        &&& self.memory_dir@ == joined(self.app_data_dir@, "memory"@)
        &&& self.database_file@ == joined(self.app_data_dir@, "pro-chat.db"@)
    }

    /// The writable directories that must exist before the worker starts,
    /// in creation order. The read-only resource directory is never listed.
    /// The list is a pure function of the resolved paths, so asking for it
    /// again yields the same directories.
    pub fn creation_dirs(&self) -> (r: Vec<String>)
        ensures
            r@.len() == 3,
            r@[0]@ == self.app_data_dir@,
            r@[1]@ == self.storage_dir@,
            r@[2]@ == self.memory_dir@,
    {
        let r = vec![
            self.app_data_dir.clone(),
            self.storage_dir.clone(),
            self.memory_dir.clone(),
        ];
        r
    }
}

/// Derives every location the worker needs from the two base directories.
/// The storage and memory directories and the database file are fixed
/// children of the writable application-data directory.
pub fn resolve_paths(resource_dir: String, app_data_dir: String) -> (r: ResolvedPaths)
    ensures
        r.resource_dir@ == resource_dir@,
        r.app_data_dir@ == app_data_dir@,
        r.storage_dir@ == joined(app_data_dir@, "storage"@),
        r.memory_dir@ == joined(app_data_dir@, "memory"@),
        r.database_file@ == joined(app_data_dir@, "pro-chat.db"@),
        r.wf(),
{
    let storage_dir = join_path(app_data_dir.as_str(), "storage");
    let memory_dir = join_path(app_data_dir.as_str(), "memory");
    let database_file = join_path(app_data_dir.as_str(), "pro-chat.db");
    ResolvedPaths { resource_dir, app_data_dir, storage_dir, memory_dir, database_file }
}

} // verus!
