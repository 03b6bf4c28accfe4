use crate::attr::has_char;
use crate::text::{find_last, lines_spec, split_lines, trim, trim_spec, views};
use vstd::prelude::*;
use vstd::string::{StrSliceExecFns, StringExecFns};

verus! {

/// A content-addressed store entry: a store location together with the
/// digest of the content registered there.  It lets synthesized
/// expressions import a project through a hash-pinned reference, so that
/// evaluation stays reproducible across machines.
#[derive(Debug, Clone)]
pub struct FixedOutputStoreEntry {
    pub path: String,
    pub hash: String,
}

/// Parses the output of the store's hash query, which reports
/// `"<algorithm>:<digest>"`: the text is trimmed and the part after the
/// last colon is the digest.
pub fn parse_store_hash(output: &str) -> (r: String)
    ensures
        !has_char(trim_spec(output@), ':') ==> r@ == trim_spec(output@),
        has_char(trim_spec(output@), ':') ==> exists|i: int|
            0 <= i < trim_spec(output@).len() && trim_spec(output@)[i] == ':' && r@ == trim_spec(
                output@,
            ).skip(i + 1) && !has_char(r@, ':'),
{
    let t = trim(output);
    let n: usize = t.as_str().unicode_len();
    match find_last(t.as_str(), ':') {
        Some(i) => {
            let digest = t.as_str().substring_char(i + 1, n);
            proof {
                let tv = trim_spec(output@);
                assert(digest@ == tv.skip(i + 1)) by {
                    assert(digest@ =~= tv.skip(i + 1));
                }
                assert(!has_char(digest@, ':')) by {
                    assert(forall|m: int|
                        0 <= m < digest@.len() ==> digest@[m] == tv[m + i + 1] && digest@[m]
                            != ':');
                }
            }
            digest.to_owned()
        },
        None => t,
    }
}

/// Parses the trimmed output of a fixed-output registration: the canonical
/// store path reported by the external store.
pub fn parse_store_path(output: &str) -> (r: String)
    ensures
        r@ == trim_spec(output@),
{
    trim(output)
}

/// Parses the output of a realisation: one concrete output path per line.
pub fn parse_realise_output(output: &str) -> (r: Vec<String>)
    ensures
        views(r@) == lines_spec(output@),
{
    split_lines(output)
}

/// The arguments of a content hash over a directory tree.
pub fn hash_path_args(dir: &str) -> (r: Vec<String>)
    ensures
        views(r@) == seq!["hash"@, "path"@, dir@, "--type"@, "sha256"@],
{
    let mut args: Vec<String> = Vec::new();
    args.push(String::from_str("hash"));
    args.push(String::from_str("path"));
    args.push(dir.to_owned());
    args.push(String::from_str("--type"));
    args.push(String::from_str("sha256"));
    proof {
        assert(views(args@) =~= seq!["hash"@, "path"@, dir@, "--type"@, "sha256"@]);
    }
    args
}

/// The arguments of a content hash over a single file.
pub fn hash_file_args(file: &str) -> (r: Vec<String>)
    ensures
        views(r@) == seq!["hash"@, "file"@, file@, "--type"@, "sha256"@],
{
    let mut args: Vec<String> = Vec::new();
    args.push(String::from_str("hash"));
    args.push(String::from_str("file"));
    args.push(file.to_owned());
    args.push(String::from_str("--type"));
    args.push(String::from_str("sha256"));
    proof {
        assert(views(args@) =~= seq!["hash"@, "file"@, file@, "--type"@, "sha256"@]);
    }
    args
}

/// The arguments of the hash query for an already-registered store path.
pub fn store_query_args(path: &str) -> (r: Vec<String>)
    ensures
        views(r@) == seq!["--query"@, path@, "--hash"@],
{
    let mut args: Vec<String> = Vec::new();
    args.push(String::from_str("--query"));
    args.push(path.to_owned());
    args.push(String::from_str("--hash"));
    proof {
        assert(views(args@) =~= seq!["--query"@, path@, "--hash"@]);
    }
    args
}

/// The arguments of a recursive fixed-output registration.
pub fn add_fixed_args(path: &str) -> (r: Vec<String>)
    ensures
        views(r@) == seq!["--recursive"@, "--add-fixed"@, "sha256"@, path@],
{
    let mut args: Vec<String> = Vec::new();
    args.push(String::from_str("--recursive"));
    args.push(String::from_str("--add-fixed"));
    args.push(String::from_str("sha256"));
    args.push(path.to_owned());
    proof {
        assert(views(args@) =~= seq!["--recursive"@, "--add-fixed"@, "sha256"@, path@]);
    }
    args
}

/// The arguments of a realisation.
pub fn realise_args(path: &str) -> (r: Vec<String>)
    ensures
        views(r@) == seq!["--realise"@, path@],
{
    let mut args: Vec<String> = Vec::new();
    args.push(String::from_str("--realise"));
    args.push(path.to_owned());
    proof {
        assert(views(args@) =~= seq!["--realise"@, path@]);
    }
    args
}

} // verus!
