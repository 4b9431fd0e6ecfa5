//! The checksum-verification step: compare the SHA-512 checksums of a set of
//! files served by one repository against the checksums published by a second
//! repository.
//!
//! Downloading is outside work and is done by the surrounding process; this
//! module builds the raw-file URLs, compares a downloaded file against its
//! published checksum, and combines the per-file comparisons into the overall
//! verdict.

use vstd::prelude::*;
use vstd::string::StringExecFns;

verus! {

/// The revisions to use when querying the repositories' files. Either
/// defaults to the tip revision when not provided.
pub struct ChangeSet {
    /// The revision for the repository whose files are checked.
    pub mc_rev: Option<String>,
    /// The revision for the repository publishing the checksums.
    pub cc_rev: Option<String>,
}

impl Default for ChangeSet {
    /// Both revisions default to the tip.
    fn default() -> (r: Self)
        ensures
            r.mc_rev is None,
            r.cc_rev is None,
    {
        ChangeSet { mc_rev: None, cc_rev: None }
    }
}

/// The repository to fetch a given file from.
pub enum Repo {
    /// The repository whose files are checked.
    MozillaCentral,
    /// The repository publishing the checksums to compare against.
    CommCentral,
}

/// The name a repository has on the Mercurial web frontend.
pub open spec fn spec_repo_name(repo: Repo) -> Seq<char> {
    match repo {
        Repo::MozillaCentral => "mozilla-central"@,
        Repo::CommCentral => "comm-central"@,
    }
}

/// The revision a change set picks for a repository, with the tip as the
/// default.
pub open spec fn spec_repo_rev(repo: Repo, change_set: ChangeSet) -> Seq<char> {
    let rev = match repo {
        Repo::MozillaCentral => change_set.mc_rev,
        Repo::CommCentral => change_set.cc_rev,
    };
    match rev {
        Some(r) => r@,
        None => "tip"@,
    }
}

/// The URL of a raw file in a repository on the Mercurial web frontend.
pub open spec fn spec_raw_file_url(repo: Repo, change_set: ChangeSet, path: Seq<char>) -> Seq<
    char,
> {
    "https://hg-edge.mozilla.org/"@ + spec_repo_name(repo) + "/raw-file/"@ + spec_repo_rev(
        repo,
        change_set,
    ) + "/"@ + path
}

/// Build the URL of a raw file in the given repository, at the revision the
/// change set picks for it.
pub fn raw_file_url(repo: &Repo, change_set: &ChangeSet, path: &str) -> (r: String)
    ensures
        r@ == spec_raw_file_url(*repo, *change_set, path@),
{
    let mut out = String::from_str("https://hg-edge.mozilla.org/");
    match repo {
        Repo::MozillaCentral => out.append("mozilla-central"),
        Repo::CommCentral => out.append("comm-central"),
    }
    out.append("/raw-file/");
    let rev = match repo {
        Repo::MozillaCentral => &change_set.mc_rev,
        Repo::CommCentral => &change_set.cc_rev,
    };
    match rev {
        Some(r) => out.append(r.as_str()),
        None => out.append("tip"),
    }
    out.append("/");
    out.append(path);
    proof {
        assert(out@ =~= spec_raw_file_url(*repo, *change_set, path@));
    }
    out
}

/// The path, within the checksum-publishing repository, of the file listing
/// the checksums to compare.
pub fn cc_checksums_path() -> (r: &'static str)
    ensures
        r@ == "rust/checksums.json"@,
{
    "rust/checksums.json"
}

/// The paths, within the checked repository, of the files to compare.
pub fn mc_workspace_toml_path() -> (r: &'static str)
    ensures
        r@ == "Cargo.toml"@,
{
    "Cargo.toml"
}

/// See `mc_workspace_toml_path`.
pub fn mc_gkrust_toml_path() -> (r: &'static str)
    ensures
        r@ == "toolkit/library/rust/shared/Cargo.toml"@,
{
    "toolkit/library/rust/shared/Cargo.toml"
}

/// See `mc_workspace_toml_path`.
pub fn mc_hack_toml_path() -> (r: &'static str)
    ensures
        r@ == "build/workspace-hack/Cargo.toml"@,
{
    "build/workspace-hack/Cargo.toml"
}

/// See `mc_workspace_toml_path`.
pub fn mc_cargo_lock_path() -> (r: &'static str)
    ensures
        r@ == "Cargo.lock"@,
{
    "Cargo.lock"
}

/// The SHA-512 digest of a byte sequence: 64 bytes determined by the input
/// alone.
pub uninterp spec fn sha512_of(bytes: Seq<u8>) -> Seq<u8>;

/// The lowercase hexadecimal rendering of a byte sequence: two digits per
/// byte, determined by the input alone.
pub uninterp spec fn hex_of(bytes: Seq<u8>) -> Seq<char>;

/// Relies on `sha2::Sha512::digest`: the SHA-512 digest, 64 bytes, a
/// function of the input bytes alone.
#[verifier::external_body]
fn sha512_digest(bytes: &[u8]) -> (r: Vec<u8>)
    ensures
        r@ == sha512_of(bytes@),
        r@.len() == 64,
{
    <sha2::Sha512 as sha2::Digest>::digest(bytes).to_vec()
}

/// Relies on `hex::encode`: lowercase hexadecimal, exactly two digits per
/// input byte, a function of the input bytes alone.
#[verifier::external_body]
fn hex_encode(bytes: &[u8]) -> (r: String)
    ensures
        r@ == hex_of(bytes@),
        r@.len() == 2 * bytes@.len(),
{
    hex::encode(bytes)
}

/// Compare one downloaded file against its published checksum: true exactly
/// when the lowercase hexadecimal SHA-512 digest of the content equals the
/// expected string.
pub fn checksum_matches(content: &Vec<u8>, expected: &String) -> (r: bool)
    ensures
        r == (hex_of(sha512_of(content@)) == expected@),
{
    let digest = sha512_digest(content.as_slice());
    let rendered = hex_encode(digest.as_slice());
    let r = rendered.eq(expected);
    proof {
        assert(rendered@ == hex_of(sha512_of(content@)));
    }
    r
}

/// Combine the per-file comparisons into the overall verdict, the way the
/// checker reads them: a file whose comparison failed with an error
/// contributes no verdict (it is reported and skipped), and the checksums
/// count as matching exactly when no compared file was observed to mismatch.
pub fn all_observed_match(results: &Vec<Option<bool>>) -> (r: bool)
    ensures
        r == (forall|i: int| 0 <= i < results@.len() ==> results@[i] != Some(false)),
{
    let mut i: usize = 0;
    while i < results.len()
        invariant
            i <= results@.len(),
            forall|j: int| 0 <= j < i ==> results@[j] != Some(false),
        decreases results@.len() - i,
    {
        let observed_mismatch = match results[i] {
            Some(matched) => !matched,
            None => false,
        };
        if observed_mismatch {
            return false;
        }
        i += 1;
    }
    true
}

} // verus!
