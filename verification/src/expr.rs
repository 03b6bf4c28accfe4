use crate::attr::{has_dot, split_at_last_dot};
use crate::store::FixedOutputStoreEntry;
use vstd::prelude::*;
use vstd::string::{StrSliceExecFns, StringExecFns};

verus! {

/// Options of a main-program lookup: the target system identifier, already
/// resolved (empty never reaches the synthesized expression; the caller
/// substitutes the current platform first).
pub struct GetMainProgramOpts {
    pub system: String,
}

/// The shared prefix of every synthesized expression: binds `source` to a
/// hash-pinned, content-addressed copy of the project tree and imports the
/// entry file relative to it, so that evaluation is reproducible whatever
/// the absolute path of the project on this machine.
pub open spec fn prelude_spec(path: Seq<char>, hash: Seq<char>, file: Seq<char>) -> Seq<char> {
    "let\n  source = builtins.path { path = \""@ + path + "\"; sha256 = \""@ + hash
        + "\"; };\n  project = import \"${source}/"@ + file + "\";\nin\n  "@
}

fn push_prelude(s: &mut String, entry: &FixedOutputStoreEntry, file: &str)
    ensures
        final(s)@ == old(s)@ + prelude_spec(entry.path@, entry.hash@, file@),
{
    s.append("let\n  source = builtins.path { path = \"");
    s.append(entry.path.as_str());
    s.append("\"; sha256 = \"");
    s.append(entry.hash.as_str());
    s.append("\"; };\n  project = import \"${source}/");
    s.append(file);
    s.append("\";\nin\n  ");
    proof {
        assert(s@ =~= old(s)@ + prelude_spec(entry.path@, entry.hash@, file@));
    }
}

/// The existence check for a single-segment attribute name: a direct
/// membership test on the project.
pub open spec fn exists_direct_spec(
    path: Seq<char>,
    hash: Seq<char>,
    file: Seq<char>,
    name: Seq<char>,
) -> Seq<char> {
    prelude_spec(path, hash, file) + "project ? "@ + name
}

/// The existence check for a multi-segment attribute name: missing
/// intermediate structure defaults to an empty set before the final
/// segment's membership test, so true absence is reported as `false`
/// rather than failing evaluation.
pub open spec fn exists_nested_spec(
    path: Seq<char>,
    hash: Seq<char>,
    file: Seq<char>,
    init: Seq<char>,
    last: Seq<char>,
) -> Seq<char> {
    prelude_spec(path, hash, file) + "(project."@ + init + " or {}) ? "@ + last
}

/// Synthesizes the existence-check expression for an attribute path
/// against the pinned source.  A single-segment name tests membership
/// directly; a multi-segment name splits at its last dot and tolerates
/// missing intermediate segments.
pub fn exists_expr(file: &str, entry: &FixedOutputStoreEntry, name: &str) -> (r: String)
    ensures
        !has_dot(name@) ==> r@ == exists_direct_spec(entry.path@, entry.hash@, file@, name@),
        has_dot(name@) ==> exists|init: Seq<char>, last: Seq<char>|
            name@ == init + seq!['.'] + last && !has_dot(last) && r@ == exists_nested_spec(
                entry.path@,
                entry.hash@,
                file@,
                init,
                last,
            ),
{
    match split_at_last_dot(name) {
        Some(pair) => {
            let mut s = String::new();
            push_prelude(&mut s, entry, file);
            s.append("(project.");
            s.append(pair.0.as_str());
            s.append(" or {}) ? ");
            s.append(pair.1.as_str());
            proof {
                let gi = pair.0@;
                let gl = pair.1@;
                assert(s@ =~= exists_nested_spec(entry.path@, entry.hash@, file@, gi, gl));
                assert(name@ == gi + seq!['.'] + gl && !has_dot(gl) && s@ == exists_nested_spec(
                    entry.path@,
                    entry.hash@,
                    file@,
                    gi,
                    gl,
                ));
            }
            s
        },
        None => {
            let mut s = String::new();
            push_prelude(&mut s, entry, file);
            s.append("project ? ");
            s.append(name);
            proof {
                assert(s@ =~= exists_direct_spec(entry.path@, entry.hash@, file@, name@));
            }
            s
        },
    }
}

/// The expression that reads an attribute's display name.
pub open spec fn name_attr_spec(
    path: Seq<char>,
    hash: Seq<char>,
    file: Seq<char>,
    attr: Seq<char>,
) -> Seq<char> {
    prelude_spec(path, hash, file) + "project."@ + attr + ".name"@
}

/// Synthesizes the expression reading `project.<attribute>.name` against
/// the pinned source, used to resolve a build target's display name.
pub fn name_attr_expr(file: &str, entry: &FixedOutputStoreEntry, attr: &str) -> (r: String)
    ensures
        r@ == name_attr_spec(entry.path@, entry.hash@, file@, attr@),
{
    let mut s = String::new();
    push_prelude(&mut s, entry, file);
    s.append("project.");
    s.append(attr);
    s.append(".name");
    proof {
        assert(s@ =~= name_attr_spec(entry.path@, entry.hash@, file@, attr@));
    }
    s
}

/// The expression that reads a package's main program, falling back to the
/// package name.
pub open spec fn main_program_spec(
    path: Seq<char>,
    hash: Seq<char>,
    file: Seq<char>,
    name: Seq<char>,
    system: Seq<char>,
) -> Seq<char> {
    "let\n  source = builtins.path { path = \""@ + path + "\"; sha256 = \""@ + hash
        + "\"; };\n  project = import \"${source}/"@ + file + "\";\n  system = \""@ + system
        + "\";\n  name = \""@ + name
        + "\";\nin\n  project.packages.${name}.result.${system}.meta.mainProgram or name"@
}

/// Synthesizes the main-program lookup for a package on a system, against
/// the pinned source.
pub fn main_program_expr(
    file: &str,
    entry: &FixedOutputStoreEntry,
    name: &str,
    opts: &GetMainProgramOpts,
) -> (r: String)
    ensures
        r@ == main_program_spec(entry.path@, entry.hash@, file@, name@, opts.system@),
{
    let mut s = String::from_str("let\n  source = builtins.path { path = \"");
    s.append(entry.path.as_str());
    s.append("\"; sha256 = \"");
    s.append(entry.hash.as_str());
    s.append("\"; };\n  project = import \"${source}/");
    s.append(file);
    s.append("\";\n  system = \"");
    s.append(opts.system.as_str());
    s.append("\";\n  name = \"");
    s.append(name);
    s.append("\";\nin\n  project.packages.${name}.result.${system}.meta.mainProgram or name");
    proof {
        assert(s@ =~= main_program_spec(entry.path@, entry.hash@, file@, name@, opts.system@));
    }
    s
}

} // verus!
