//! Traversal inclusion policy: the fixed lockfile set, the exclusion of the
//! destination artifact by resolved identity, and the configuration handed to
//! the ignore-aware directory walker.

use vstd::prelude::*;
use crate::text::str_eq;

verus! {

/// The fixed set of dependency-lockfile basenames.
pub open spec fn spec_lockfile_names() -> Seq<Seq<char>> {
    seq![
        "Cargo.lock"@,
        "package-lock.json"@,
        "yarn.lock"@,
        "poetry.lock"@,
        "Gemfile.lock"@,
        "composer.lock"@,
        "Pipfile.lock"@,
        "go.sum"@,
        "flake.lock"@,
    ]
}

/// A basename is a lockfile name exactly when it stands in the fixed set.
pub open spec fn spec_is_lockfile(name: Seq<char>) -> bool {
    exists|i: int| 0 <= i < spec_lockfile_names().len() && spec_lockfile_names()[i] == name
}

/// Decides membership of a basename in the fixed lockfile set.
pub fn is_lockfile(name: &str) -> (r: bool)
    ensures
        r == spec_is_lockfile(name@),
{
    let r = str_eq(name, "Cargo.lock") || str_eq(name, "package-lock.json") || str_eq(
        name,
        "yarn.lock",
    ) || str_eq(name, "poetry.lock") || str_eq(name, "Gemfile.lock") || str_eq(
        name,
        "composer.lock",
    ) || str_eq(name, "Pipfile.lock") || str_eq(name, "go.sum") || str_eq(name, "flake.lock");
    proof {
        if r {
            assert(spec_is_lockfile(name@)) by {
                if name@ == "Cargo.lock"@ {
                    assert(spec_lockfile_names()[0] == name@);
                } else if name@ == "package-lock.json"@ {
                    assert(spec_lockfile_names()[1] == name@);
                } else if name@ == "yarn.lock"@ {
                    assert(spec_lockfile_names()[2] == name@);
                } else if name@ == "poetry.lock"@ {
                    assert(spec_lockfile_names()[3] == name@);
                } else if name@ == "Gemfile.lock"@ {
                    assert(spec_lockfile_names()[4] == name@);
                } else if name@ == "composer.lock"@ {
                    assert(spec_lockfile_names()[5] == name@);
                } else if name@ == "Pipfile.lock"@ {
                    assert(spec_lockfile_names()[6] == name@);
                } else if name@ == "go.sum"@ {
                    assert(spec_lockfile_names()[7] == name@);
                } else {
                    assert(spec_lockfile_names()[8] == name@);
                }
            }
        } else {
            assert forall|i: int| 0 <= i < spec_lockfile_names().len() implies spec_lockfile_names()[i]
                != name@ by {
                assert(spec_lockfile_names()[0] == "Cargo.lock"@);
                assert(spec_lockfile_names()[1] == "package-lock.json"@);
                assert(spec_lockfile_names()[2] == "yarn.lock"@);
                assert(spec_lockfile_names()[3] == "poetry.lock"@);
                assert(spec_lockfile_names()[4] == "Gemfile.lock"@);
                assert(spec_lockfile_names()[5] == "composer.lock"@);
                assert(spec_lockfile_names()[6] == "Pipfile.lock"@);
                assert(spec_lockfile_names()[7] == "go.sum"@);
                assert(spec_lockfile_names()[8] == "flake.lock"@);
            }
        }
    }
    r
}

/// What the traversal must leave out besides what the ignore rules reject:
/// the resolved identity of the destination artifact, when it has one.
pub struct ExclusionSet {
    pub output_identity: Option<String>,
}

impl ExclusionSet {
    /// The destination's resolved identity, as a character sequence.
    pub open spec fn identity(self) -> Option<Seq<char>> {
        match self.output_identity {
            Some(s) => Some(s@),
            None => None,
        }
    }

    /// Builds the exclusion set for a run; `output_identity` is the resolved
    /// identity of the destination artifact, absent when the destination is
    /// not filesystem-backed or could not be resolved.
    pub fn new(output_identity: Option<String>) -> (r: ExclusionSet)
        ensures
            r.identity() == match output_identity {
                Some(s) => Some(s@),
                None => None::<Seq<char>>,
            },
    {
        ExclusionSet { output_identity }
    }
}

/// Whether a traversal entry passes the additional filters: it is kept unless
/// its resolved identity matches the destination artifact, or it is a file
/// whose basename stands in the fixed lockfile set. An entry whose identity
/// could not be resolved is never excluded by the identity rule.
pub open spec fn spec_should_include(
    excl: Option<Seq<char>>,
    is_file: bool,
    name: Seq<char>,
    entry_identity: Option<Seq<char>>,
) -> bool {
    &&& !(excl is Some && entry_identity is Some && entry_identity->0 == excl->0)
    &&& !(is_file && spec_is_lockfile(name))
}

impl ExclusionSet {
    /// Decides whether a traversal entry is kept, from its kind, its basename
    /// and its resolved identity (absent when resolution failed).
    pub fn should_include(&self, is_file: bool, file_name: &str, entry_identity: Option<&String>) -> (r:
        bool)
        ensures
            r == spec_should_include(
                self.identity(),
                is_file,
                file_name@,
                match entry_identity {
                    Some(s) => Some(s@),
                    None => None::<Seq<char>>,
                },
            ),
    {
        let excluded_as_output = match (&self.output_identity, entry_identity) {
            (Some(out), Some(entry)) => str_eq(entry.as_str(), out.as_str()),
            _ => false,
        };
        if excluded_as_output {
            return false;
        }
        if is_file && is_lockfile(file_name) {
            return false;
        }
        true
    }
}

/// The destination artifact is never kept by the filter when both identities
/// resolved to the same place.
pub proof fn lemma_output_never_included(
    excl: Option<Seq<char>>,
    is_file: bool,
    name: Seq<char>,
    entry_identity: Option<Seq<char>>,
)
    requires
        excl is Some,
        entry_identity == excl,
    ensures
        !spec_should_include(excl, is_file, name, entry_identity),
{
}

/// A file whose basename stands in the fixed lockfile set is never kept,
/// whatever the other inputs say.
pub proof fn lemma_lockfile_never_included(
    excl: Option<Seq<char>>,
    name: Seq<char>,
    entry_identity: Option<Seq<char>>,
)
    requires
        spec_is_lockfile(name),
    ensures
        !spec_should_include(excl, true, name, entry_identity),
{
}

/// The configuration handed to the directory walker: every ignore-file format
/// is honored, parent directories are consulted for ignore files, and hidden
/// entries are filtered out unless the run asks to include them.
pub struct WalkPolicy {
    pub filter_hidden: bool,
    pub respect_parents: bool,
    pub respect_git_ignore: bool,
    pub respect_git_global: bool,
    pub respect_git_exclude: bool,
    pub respect_ignore_files: bool,
}

impl WalkPolicy {
    /// The policy of a run: ignore rules always apply; hidden entries are
    /// filtered exactly when they were not asked for.
    pub fn new(include_hidden: bool) -> (p: WalkPolicy)
        ensures
            p.filter_hidden == !include_hidden,
            p.respect_parents,
            p.respect_git_ignore,
            p.respect_git_global,
            p.respect_git_exclude,
            p.respect_ignore_files,
    {
        WalkPolicy {
            filter_hidden: !include_hidden,
            respect_parents: true,
            respect_git_ignore: true,
            respect_git_global: true,
            respect_git_exclude: true,
            respect_ignore_files: true,
        }
    }
}

} // verus!
