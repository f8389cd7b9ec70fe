//! The build-cache directory on the Windows side, keyed by workspace name.
use vstd::prelude::*;
use vstd::string::*;
use crate::error::BridgeError;
use crate::text::{strip_trailing, trailing_cut};

verus! {

/// The directory under the temp directory that holds every cache of this tool.
pub open spec fn namespace() -> Seq<char> {
    seq!['c', 'a', 'r', 'g', 'o', '-', 'w', 'i', 'n']
}

/// `<temp>\cargo-win\<workspace>\`, with the separators at the end of `temp`
/// folded into one.
pub open spec fn target_dir_of(temp: Seq<char>, workspace: Seq<char>) -> Seq<char> {
    strip_trailing(temp, '\\') + seq!['\\'] + namespace() + seq!['\\'] + workspace + seq!['\\']
}

/// What camino's `Utf8Path::file_name` returns for a path.
pub uninterp spec fn file_name_of(path: Seq<char>) -> Option<Seq<char>>;

/// Relies on camino's `Utf8Path::file_name` (re-exported by cargo_metadata):
/// the last component of the path, or `None` where there is none.
#[verifier::external_body]
fn path_file_name(path: &str) -> (r: Option<String>)
    ensures
        r is None ==> file_name_of(path@) is None,
        r matches Some(n) ==> file_name_of(path@) == Some(n@),
{
    cargo_metadata::camino::Utf8Path::new(path).file_name().map(|n| n.to_string())
}

/// The workspace's name: the last component of its root directory.
pub fn workspace_name(root: &str) -> (r: Result<String, BridgeError>)
    ensures
        file_name_of(root@) is None <==> r is Err,
        r matches Ok(n) ==> file_name_of(root@) == Some(n@),
        r matches Err(e) ==> e == BridgeError::MetadataUnavailable,
{
    match path_file_name(root) {
        Some(n) => Ok(n),
        None => Err(BridgeError::MetadataUnavailable),
    }
}

/// The cache directory for `workspace_name` under `temp_dir`.
pub fn derive_target_dir(temp_dir: &str, workspace_name: &str) -> (r: String)
    ensures
        r@ == target_dir_of(temp_dir@, workspace_name@),
{
    let n = trailing_cut(temp_dir, '\\');
    let mut out = String::from_str(temp_dir.substring_char(0, n));
    out.append("\\cargo-win\\");
    out.append(workspace_name);
    out.append("\\");
    proof {
        reveal_strlit("\\cargo-win\\");
        reveal_strlit("\\");
        assert(out@ =~= target_dir_of(temp_dir@, workspace_name@));
    }
    out
}

/// A separator at the end of the temp directory does not change the cache directory.
pub proof fn lemma_trailing_separator_ignored(temp: Seq<char>, workspace: Seq<char>)
    ensures
        target_dir_of(temp.push('\\'), workspace) == target_dir_of(temp, workspace),
{
    assert(temp.push('\\').drop_last() =~= temp);
}

/// The temp-directory part of a cache directory never ends in a separator,
/// so exactly one stands before the namespace.
pub proof fn lemma_one_separator(temp: Seq<char>)
    ensures
        strip_trailing(temp, '\\').len() == 0 || strip_trailing(temp, '\\').last() != '\\',
    decreases temp.len(),
{
    if temp.len() > 0 && temp.last() == '\\' {
        lemma_one_separator(temp.drop_last());
    }
}

} // verus!
