use crate::text::{find_from, find_last, str_eq};
use vstd::prelude::*;
use vstd::string::{StrSliceExecFns, StringExecFns};

verus! {

/// Whether `c` occurs in `s`.
pub open spec fn has_char(s: Seq<char>, c: char) -> bool {
    exists|i: int| 0 <= i < s.len() && s[i] == c
}

/// Whether the attribute path has more than one segment.
pub open spec fn has_dot(s: Seq<char>) -> bool {
    has_char(s, '.')
}

/// The category of a build target.  The first segment of the attribute
/// path alone determines it; nothing is inferred from evaluated content.
#[derive(Debug, Clone, Copy, PartialEq, Eq, Structural)]
pub enum BuildClassification {
    System,
    Shell,
    Package,
    Unknown,
}

/// Splits a dotted attribute path at its last dot: all segments but the
/// last, dot-joined, and the final segment.  A single-segment path yields
/// `None`.
pub fn split_at_last_dot(name: &str) -> (r: Option<(String, String)>)
    ensures
        match r {
            Some(pair) => has_dot(name@) && name@ == pair.0@ + seq!['.'] + pair.1@ && !has_dot(
                pair.1@,
            ),
            None => !has_dot(name@),
        },
{
    let n: usize = name.unicode_len();
    match find_last(name, '.') {
        Some(i) => {
            let init = name.substring_char(0, i);
            let last = name.substring_char(i + 1, n);
            proof {
                assert(name@ == init@ + seq!['.'] + last@) by {
                    assert(name@ =~= name@.subrange(0, i as int) + seq![name@[i as int]]
                        + name@.subrange(i as int + 1, n as int));
                }
                assert(!has_dot(last@)) by {
                    assert(forall|m: int|
                        0 <= m < last@.len() ==> last@[m] == name@[m + i + 1] && last@[m] != '.');
                }
            }
            Some((init.to_owned(), last.to_owned()))
        },
        None => None,
    }
}

/// The leading run of non-dot characters of `s`.
pub open spec fn first_seg_spec(s: Seq<char>) -> Seq<char>
    decreases s.len(),
{
    if s.len() == 0 {
        s
    } else if s[0] == '.' {
        Seq::empty()
    } else {
        seq![s[0]] + first_seg_spec(s.drop_first())
    }
}

proof fn lemma_first_seg_at(s: Seq<char>, i: int)
    requires
        0 <= i <= s.len(),
        forall|m: int| 0 <= m < i ==> s[m] != '.',
        i == s.len() || s[i] == '.',
    ensures
        first_seg_spec(s) == s.take(i),
    decreases i,
{
    if i == 0 {
        assert(s.take(0) =~= Seq::<char>::empty());
        if s.len() > 0 {
            assert(s[0] == '.');
        }
    } else {
        lemma_first_seg_at(s.drop_first(), i - 1);
        assert(seq![s[0]] + s.drop_first().take(i - 1) =~= s.take(i));
    }
}

/// The first dot-separated segment of the attribute path (the whole path
/// when it has a single segment).
pub fn first_segment(name: &str) -> (r: String)
    ensures
        r@ == first_seg_spec(name@),
{
    let n: usize = name.unicode_len();
    match find_from(name, 0, '.') {
        Some(i) => {
            let seg = name.substring_char(0, i);
            proof {
                lemma_first_seg_at(name@, i as int);
            }
            seg.to_owned()
        },
        None => {
            proof {
                lemma_first_seg_at(name@, n as int);
                assert(name@.take(n as int) =~= name@);
            }
            name.to_owned()
        },
    }
}

/// The classification that a first segment maps to.
pub open spec fn classification_of(first: Seq<char>) -> BuildClassification {
    if first == "systems"@ {
        BuildClassification::System
    } else if first == "shells"@ {
        BuildClassification::Shell
    } else if first == "packages"@ {
        BuildClassification::Package
    } else {
        BuildClassification::Unknown
    }
}

/// The classification of a whole attribute path.
pub open spec fn classify_spec(name: Seq<char>) -> BuildClassification {
    classification_of(first_seg_spec(name))
}

/// Classifies an attribute path by its first segment: `systems`, `shells`
/// and `packages` map to their categories, anything else is unclassified.
pub fn classify_path(name: &str) -> (r: BuildClassification)
    ensures
        r == classify_spec(name@),
{
    let first = first_segment(name);
    if str_eq(first.as_str(), "systems") {
        BuildClassification::System
    } else if str_eq(first.as_str(), "shells") {
        BuildClassification::Shell
    } else if str_eq(first.as_str(), "packages") {
        BuildClassification::Package
    } else {
        BuildClassification::Unknown
    }
}

/// The default attribute path for a build without an explicit name.
pub open spec fn default_attr_spec(system: Seq<char>) -> Seq<char> {
    "packages.default.result.\""@ + system + "\""@
}

/// The attribute path for a single-segment build name.
pub open spec fn named_attr_spec(name: Seq<char>, system: Seq<char>) -> Seq<char> {
    "packages.\""@ + name + "\".result.\""@ + system + "\""@
}

/// Resolves the build target's attribute path: an explicit name containing
/// a dot is used verbatim; a plain name is expanded into the package result
/// for the target system; no name selects the default package.
pub fn expand_attr_path(name: &Option<String>, system: &str) -> (r: String)
    ensures
        name is None ==> r@ == default_attr_spec(system@),
        name matches Some(n) ==> r@ == (if has_dot(n@) {
            n@
        } else {
            named_attr_spec(n@, system@)
        }),
{
    match name {
        None => {
            let mut s = String::from_str("packages.default.result.\"");
            s.append(system);
            s.append("\"");
            proof {
                assert(s@ =~= default_attr_spec(system@));
            }
            s
        },
        Some(n) => {
            if find_from(n.as_str(), 0, '.').is_some() {
                n.clone()
            } else {
                let mut s = String::from_str("packages.\"");
                s.append(n.as_str());
                s.append("\".result.\"");
                s.append(system);
                s.append("\"");
                proof {
                    assert(s@ =~= named_attr_spec(n@, system@));
                }
                s
            }
        },
    }
}

} // verus!
