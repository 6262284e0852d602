//! Where the application keeps its files, below the user's documents folder.
use vstd::prelude::*;

verus! {

/// `name` inside the directory `dir`, joined with `/` unless `dir` already
/// ends in one.
pub open spec fn child_path(dir: Seq<char>, name: Seq<char>) -> Seq<char> {
    if dir.len() > 0 && dir.last() == '/' {
        dir + name
    } else {
        dir.push('/') + name
    }
}

/// The application's folder under the user's documents folder.
pub open spec fn app_dir_of(documents: Seq<char>) -> Seq<char> {
    child_path(documents, "T-Countdown"@)
}

fn join(dir: &str, name: &str) -> (r: String)
    ensures
        r@ == child_path(dir@, name@),
{
    let n = dir.unicode_len();
    let mut r = dir.to_owned();
    if !(n > 0 && dir.get_char(n - 1) == '/') {
        proof {
            reveal_strlit("/");
        }
        r.append("/");
    }
    r.append(name);
    r
}

/// The application's folder inside the documents folder `documents`.
pub fn app_dir(documents: &str) -> (r: String)
    ensures
        r@ == app_dir_of(documents@),
{
    join(documents, "T-Countdown")
}

/// The local data document inside the application's folder `dir`.
pub fn data_file_path(dir: &str) -> (r: String)
    ensures
        r@ == child_path(dir@, "data.json"@),
{
    join(dir, "data.json")
}

/// The configuration document inside the application's folder `dir`.
pub fn config_file_path(dir: &str) -> (r: String)
    ensures
        r@ == child_path(dir@, "config.json"@),
{
    join(dir, "config.json")
}

} // verus!
