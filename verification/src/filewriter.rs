//! Where a screenshot is saved: the name of the file.

use vstd::prelude::*;
use vstd::string::{StrSliceExecFns, StringExecFns};

use crate::text::{decimal, decimal_digits};

verus! {

/// The name of the file for a screenshot taken `secs` seconds after the
/// epoch.
pub open spec fn spec_file_name(secs: u64) -> Seq<char> {
    decimal_digits(secs as nat) + "-haruhui.png"@
}

/// The path of the file `file` in the directory `dir`: the two joined by one
/// separator, unless `dir` is empty or ends in a separator already.
pub open spec fn spec_join(dir: Seq<char>, file: Seq<char>) -> Seq<char> {
    if dir.len() == 0 || dir.last() == '/' {
        dir + file
    } else {
        dir + seq!['/'] + file
    }
}

/// The path under which a screenshot taken `secs` seconds after the epoch is
/// saved in the directory `save_path`: the file is named by the seconds, in
/// base ten, and a fixed ending.
pub fn random_file_path(save_path: &str, secs: u64) -> (path: String)
    ensures
        path@ == spec_join(save_path@, spec_file_name(secs)),
{
    let mut file_name = decimal(secs);
    file_name.append("-haruhui.png");
    let len = save_path.unicode_len();
    let mut path = String::from_str(save_path);
    if len > 0 && save_path.get_char(len - 1) != '/' {
        proof {
            reveal_strlit("/");
        }
        path.append("/");
        assert("/"@ =~= seq!['/']);
    }
    path.append(file_name.as_str());
    path
}

} // verus!
