//! Path strings for the workspace and its artifacts.

use vstd::prelude::*;
use vstd::string::*;

verus! {

/// The characters of `name` placed inside directory `dir`.
pub open spec fn path_chars(dir: Seq<char>, name: Seq<char>) -> Seq<char> {
    dir + "/"@ + name
}

/// Join a directory path and a file name with a `/` separator.
pub fn path_join(dir: &str, name: &str) -> (r: String)
    ensures
        r@ == path_chars(dir@, name@),
{
    let mut s = String::from_str(dir);
    s.append("/");
    s.append(name);
    s
}

} // verus!
