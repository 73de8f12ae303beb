//! The dependency-version registry's value model: one dependency entry of
//! a manifest, and the display-name logic that turns an entry into the
//! adapter name used for filtering and reporting.
//!
//! Reading and deserialising the manifest itself is left to the
//! surrounding binary; this module holds the logic on the parsed values.
use vstd::prelude::*;
use vstd::string::{StrSliceExecFns, StringExecFns};

verus! {

/// One dependency entry: a bare version string, a table with a version,
/// or a git reference.
pub enum DependencyValue {
    Plain(String),
    Object {
        package: Option<String>,
        version: String,
        features: Option<Vec<String>>,
        optional: Option<bool>,
    },
    Git {
        package: Option<String>,
        git: String,
        branch: Option<String>,
        rev: Option<String>,
        version: Option<String>,
        features: Option<Vec<String>>,
        optional: Option<bool>,
    },
}

/// The version text an entry displays: the version string itself, or for
/// a git entry the git URL followed by `?branch=<branch>` and
/// `#<rev>` where those are set.
pub open spec fn spec_version(v: DependencyValue) -> Option<Seq<char>> {
    match v {
        DependencyValue::Plain(s) => Some(s@),
        DependencyValue::Object { version, .. } => Some(version@),
        DependencyValue::Git { git, branch, rev, .. } => Some(
            git@ + (match branch {
                Some(b) => "?branch="@ + b@,
                None => Seq::<char>::empty(),
            }) + (match rev {
                Some(r) => "#"@ + r@,
                None => Seq::<char>::empty(),
            }),
        ),
    }
}

impl DependencyValue {
    /// The version text of this entry, if it has one.
    pub fn version(&self) -> (r: Option<String>)
        ensures
            match r {
                Some(s) => spec_version(*self) == Some(s@),
                None => spec_version(*self) is None,
            },
    {
        match self {
            DependencyValue::Plain(s) => Some(s.clone()),
            DependencyValue::Object { version, .. } => Some(version.clone()),
            DependencyValue::Git { git, branch, rev, .. } => {
                let mut git_url = String::from_str(git.as_str());
                match branch {
                    Some(b) => {
                        git_url.append("?branch=");
                        git_url.append(b.as_str());
                    },
                    None => {},
                }
                match rev {
                    Some(r) => {
                        git_url.append("#");
                        git_url.append(r.as_str());
                    },
                    None => {},
                }
                proof {
                    assert(Some(git_url@) == spec_version(*self));
                }
                Some(git_url)
            },
        }
    }
}

/// A character with a dash turned into an underscore; any other character
/// is left as it is.
pub open spec fn dash_to_underscore(c: char) -> char {
    if c == '-' {
        '_'
    } else {
        c
    }
}

/// A dependency name as the registry keys it: dashes replaced by
/// underscores.
pub open spec fn spec_normalized(s: Seq<char>) -> Seq<char> {
    s.map_values(|c: char| dash_to_underscore(c))
}

/// Normalises a dependency name to its registry key, replacing each dash
/// with an underscore.
pub fn normalize_dep_name(s: &str) -> (r: String)
    ensures
        r@ == spec_normalized(s@),
{
    let n = s.unicode_len();
    let mut out = String::new();
    let mut i: usize = 0;
    while i < n
        invariant
            i <= n == s@.len(),
            out@ =~= s@.subrange(0, i as int).map_values(|c: char| dash_to_underscore(c)),
        decreases n - i,
    {
        let c = s.get_char(i);
        if c == '-' {
            out.append("_");
            proof {
                reveal_strlit("_");
                assert(s@.subrange(0, i + 1).map_values(|c: char| dash_to_underscore(c)) =~= s@
                    .subrange(0, i as int).map_values(|c: char| dash_to_underscore(c)) + "_"@);
            }
        } else {
            let piece = s.substring_char(i, i + 1);
            out.append(piece);
            proof {
                assert(s@.subrange(0, i + 1).map_values(|c: char| dash_to_underscore(c)) =~= s@
                    .subrange(0, i as int).map_values(|c: char| dash_to_underscore(c))
                    + s@.subrange(i as int, i + 1));
            }
        }
        i = i + 1;
    }
    proof {
        assert(s@.subrange(0, n as int) =~= s@);
    }
    out
}

/// A version string with any leading `=` requirement markers dropped.
pub open spec fn spec_trim_eq(s: Seq<char>) -> Seq<char>
    decreases s.len(),
{
    if s.len() > 0 && s[0] == '=' {
        spec_trim_eq(s.drop_first())
    } else {
        s
    }
}

/// Drops the leading `=` markers of a version requirement string.
pub fn trim_eq_prefix(s: &str) -> (r: &str)
    ensures
        r@ == spec_trim_eq(s@),
{
    let n = s.unicode_len();
    proof {
        assert(s@.subrange(0, n as int) =~= s@);
    }
    let mut i: usize = 0;
    while i < n && s.get_char(i) == '='
        invariant
            i <= n == s@.len(),
            spec_trim_eq(s@) == spec_trim_eq(s@.subrange(i as int, n as int)),
        decreases n - i,
    {
        proof {
            assert(s@.subrange(i as int, n as int).drop_first() =~= s@.subrange(i + 1, n as int));
        }
        i = i + 1;
    }
    let r = s.substring_char(i, n);
    proof {
        if i < n {
            assert(spec_trim_eq(s@.subrange(i as int, n as int)) == s@.subrange(
                i as int,
                n as int,
            ));
        } else {
            assert(s@.subrange(i as int, n as int) =~= Seq::<char>::empty());
        }
    }
    r
}

/// The display name of an adapter bound to a dependency: the registry
/// name, `@`, and the version text with leading `=` markers dropped.
pub fn display_name(dep: &str, version: &str) -> (r: String)
    ensures
        r@ == dep@ + "@"@ + spec_trim_eq(version@),
{
    let mut out = String::from_str(dep);
    out.append("@");
    out.append(trim_eq_prefix(version));
    out
}

/// The display name of an adapter with a distinguishing label appended
/// after a dash, for crates that bind more than one adapter.
pub fn display_name_with_label(dep: &str, version: &str, label: &str) -> (r: String)
    ensures
        r@ == dep@ + "@"@ + spec_trim_eq(version@) + " - "@ + label@,
{
    let mut out = display_name(dep, version);
    out.append(" - ");
    out.append(label);
    out
}

} // verus!
