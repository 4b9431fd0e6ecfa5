//! Where the resumption cursor lives on disk.
//!
//! The cursor is kept in a single text file whose content is exactly the
//! cursor string. This module computes the file's path from the configured
//! store directory; reading and writing the file is disk I/O and is done by
//! the surrounding process.

use vstd::prelude::*;
use vstd::string::StrSliceExecFns;
use vstd::string::StringExecFns;

verus! {

/// The name of the cursor file inside the store directory.
pub fn sync_token_file_name() -> (r: &'static str)
    ensures
        r@ == "matrix_sync_token.txt"@,
{
    "matrix_sync_token.txt"
}

/// The path of a file inside a store directory: the directory and the file
/// name, joined with a separator unless the directory already ends with one
/// or is empty.
pub open spec fn spec_path_join(dir: Seq<char>, file: Seq<char>) -> Seq<char> {
    if dir.len() == 0 {
        file
    } else if dir.last() == '/' {
        dir + file
    } else {
        dir + seq!['/'] + file
    }
}

/// Join a store directory and a file name into a path.
pub fn path_join(dir: &str, file: &str) -> (r: String)
    ensures
        r@ == spec_path_join(dir@, file@),
{
    let n = dir.unicode_len();
    let mut out = String::from_str(dir);
    if n == 0 {
        out.append(file);
        return out;
    }
    let last = dir.get_char(n - 1);
    if last != '/' {
        out.append("/");
        proof {
            reveal_strlit("/");
            assert(out@ =~= dir@ + seq!['/']);
        }
    }
    out.append(file);
    proof {
        assert(out@ =~= spec_path_join(dir@, file@));
    }
    out
}

/// The path of the cursor file inside the given store directory. The caller
/// resolves the configuration: the configured store location when one is
/// set, the current working directory otherwise.
pub fn sync_token_path(store_dir: &str) -> (r: String)
    ensures
        r@ == spec_path_join(store_dir@, "matrix_sync_token.txt"@),
{
    path_join(store_dir, sync_token_file_name())
}

} // verus!
