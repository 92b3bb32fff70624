//! Where the files of the diary lie below its data directory.

use vstd::prelude::*;

verus! {

/// `name` below the directory `dir`: the name alone where the directory is empty,
/// else the two joined by one slash, which is not doubled where the directory ends in
/// one already.
pub open spec fn path_below(dir: Seq<char>, name: Seq<char>) -> Seq<char> {
    if dir.len() == 0 {
        name
    } else if dir.last() == '/' {
        dir + name
    } else {
        dir + "/"@ + name
    }
}

/// Joins a directory and a name.
fn below(dir: &str, name: &str) -> (path: String)
    ensures
        path@ == path_below(dir@, name@),
{
    let len = dir.unicode_len();
    if len == 0 {
        let path = String::from_str(name);
        path
    } else if dir.get_char(len - 1) == '/' {
        String::from_str(dir).concat(name)
    } else {
        String::from_str(dir).concat("/").concat(name)
    }
}

/// The path of the entry database: `diary.db` in the data directory.
pub fn get_db_path(data_dir: &str) -> (path: String)
    ensures
        path@ == path_below(data_dir@, "diary.db"@),
{
    below(data_dir, "diary.db")
}

/// The path of the file that keeps the identity: `nostr_keys.json` in the data
/// directory.
pub fn get_nostr_keys_file_path(data_dir: &str) -> (path: String)
    ensures
        path@ == path_below(data_dir@, "nostr_keys.json"@),
{
    below(data_dir, "nostr_keys.json")
}

/// The path of the directory of imported diaries: `common_diaries` in the data
/// directory.
pub fn get_common_diaries_dir(data_dir: &str) -> (path: String)
    ensures
        path@ == path_below(data_dir@, "common_diaries"@),
{
    below(data_dir, "common_diaries")
}

} // verus!
