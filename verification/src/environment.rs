//! Environment builder: assembles the variables the worker process needs,
//! deriving its database connection URL from the database file path by
//! percent-escaping space characters.

use vstd::prelude::*;
use vstd::string::StrSliceExecFns;
use vstd::string::StringExecFns;
use crate::paths::{joined, ResolvedPaths};

verus! {

/// A space becomes `%20`; every other character passes through unchanged.
pub open spec fn escape_char(c: char) -> Seq<char> {
    if c == ' ' {
        seq!['%', '2', '0']
    } else {
        seq![c]
    }
}

/// The input with every space escaped as `%20` and nothing else changed.
pub open spec fn escape_spaces(s: Seq<char>) -> Seq<char>
    decreases s.len(),
{
    if s.len() == 0 {
        Seq::empty()
    } else {
        escape_spaces(s.drop_last()) + escape_char(s.last())
    }
}

/// Escaping touches only spaces: an input without any space character comes
/// back unchanged, whatever other characters (`%`, `#`, ...) it holds.
pub proof fn lemma_escape_spaces_without_spaces_identity(s: Seq<char>)
    requires
        forall|i: int| 0 <= i < s.len() ==> s[i] != ' ',
    ensures
        escape_spaces(s) == s,
    decreases s.len(),
{
    if s.len() == 0 {
        assert(escape_spaces(s) =~= s);
    } else {
        lemma_escape_spaces_without_spaces_identity(s.drop_last());
        assert(s.last() != ' ');
        assert(escape_spaces(s) =~= s.drop_last() + seq![s.last()]);
        assert(s.drop_last() + seq![s.last()] =~= s);
    }
}

/// Replaces every space in `s` by `%20`, leaving all other characters as
/// they are.
pub fn escape_spaces_exec(s: &str) -> (r: String)
    ensures
        r@ == escape_spaces(s@),
{
    let n = s.unicode_len();
    let mut r = String::new();
    let mut i: usize = 0;
    while i < n
        invariant
            n == s@.len(),
            i <= n,
            r@ == escape_spaces(s@.take(i as int)),
        decreases n - i,
    {
        let c = s.get_char(i);
        if c == ' ' {
            r.append("%20");
            proof {
                reveal_strlit("%20");
                assert("%20"@ =~= seq!['%', '2', '0']);
            }
        } else {
            let piece = s.substring_char(i, i + 1);
            proof {
                assert(piece@ =~= seq![s@[i as int]]);
            }
            r.append(piece);
        }
        proof {
            let t = s@.take(i + 1 as int);
            assert(t.drop_last() =~= s@.take(i as int));
            assert(t.last() == s@[i as int]);
            assert(r@ =~= escape_spaces(t));
        }
        i = i + 1;
    }
    proof {
        assert(s@.take(n as int) =~= s@);
    }
    r
}

/// The connection URL: a file-scheme marker before the database file path
/// with its spaces escaped.
pub open spec fn database_url_spec(database_file: Seq<char>) -> Seq<char> {
    "file://"@ + escape_spaces(database_file)
}

/// Derives the worker's database connection URL from the database file path.
pub fn derive_database_url(database_file: &str) -> (r: String)
    ensures
        r@ == database_url_spec(database_file@),
{
    let mut r = "file://".to_owned();
    let escaped = escape_spaces_exec(database_file);
    r.append(escaped.as_str());
    r
}

/// The variables the worker process is started with: module resolution path,
/// database connection URL, and the two writable data locations.
pub struct WorkerEnvironment {
    pub node_path: String,
    pub database_url: String,
    pub storage_path: String,
    pub memory_path: String,
}

impl WorkerEnvironment {
    /// The variables as name/value pairs, exactly the four the worker's
    /// spawn-time contract names and no others.
    pub fn entries(&self) -> (r: Vec<(String, String)>)
        ensures
            r@.len() == 4,
            r@[0].0@ == "NODE_PATH"@ && r@[0].1@ == self.node_path@,
            r@[1].0@ == "DATABASE_URL"@ && r@[1].1@ == self.database_url@,
            r@[2].0@ == "STORAGE_PATH"@ && r@[2].1@ == self.storage_path@,
            r@[3].0@ == "MEMORY_PATH"@ && r@[3].1@ == self.memory_path@,
    {
        let r = vec![
            ("NODE_PATH".to_owned(), self.node_path.clone()),
            ("DATABASE_URL".to_owned(), self.database_url.clone()),
            ("STORAGE_PATH".to_owned(), self.storage_path.clone()),
            ("MEMORY_PATH".to_owned(), self.memory_path.clone()),
        ];
        r
    }
}

/// Builds the worker's environment from the resolved paths. Pure: no probe,
/// no side effect, no failure path.
pub fn build_environment(paths: &ResolvedPaths) -> (r: WorkerEnvironment)
    ensures
        r.node_path@ == joined(paths.resource_dir@, "node_modules"@),
        r.database_url@ == database_url_spec(paths.database_file@),
        r.storage_path@ == paths.storage_dir@,
        r.memory_path@ == paths.memory_dir@,
{
    WorkerEnvironment {
        node_path: crate::paths::join_path(paths.resource_dir.as_str(), "node_modules"),
        database_url: derive_database_url(paths.database_file.as_str()),
        storage_path: paths.storage_dir.clone(),
        memory_path: paths.memory_dir.clone(),
    }
}

} // verus!
