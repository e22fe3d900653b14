//! What to do at start-up, decided from the command line and from whether a
//! snapshot of the system list is already at hand.

use vstd::prelude::*;
use vstd::string::*;

verus! {

/// The argument that asks for a fresh download.
pub open spec fn download_flag() -> Seq<char> {
    "--download-systems"@
}

/// The beginning of the argument that carries the credential.
pub open spec fn token_flag() -> Seq<char> {
    "--token="@
}

/// The argument carries a credential.
pub open spec fn is_token_argument(arg: Seq<char>) -> bool {
    token_flag().is_prefix_of(arg)
}

/// The credential that a token argument carries.
pub open spec fn token_in(arg: Seq<char>) -> Seq<char> {
    arg.skip(token_flag().len() as int)
}

/// One of the arguments asks for a fresh download.
pub open spec fn download_forced_spec(args: Seq<String>) -> bool {
    exists|i: int| 0 <= i < args.len() && (#[trigger] args[i])@ == download_flag()
}

/// The argument at `i` is the first that carries a credential.
pub open spec fn is_first_token_argument(args: Seq<String>, i: int) -> bool {
    &&& 0 <= i < args.len()
    &&& is_token_argument(args[i]@)
    &&& forall|j: int| 0 <= j < i ==> !is_token_argument((#[trigger] args[j])@)
}

/// None of the arguments carries a credential.
pub open spec fn no_token_argument(args: Seq<String>) -> bool {
    forall|i: int| 0 <= i < args.len() ==> !is_token_argument((#[trigger] args[i])@)
}

/// The system list is downloaded when that is asked for, and whenever no
/// snapshot is at hand.
pub open spec fn download_wanted(args: Seq<String>, snapshot_exists: bool) -> bool {
    download_forced_spec(args) || !snapshot_exists
}

/// What to do at start-up.
#[derive(Debug)]
pub enum Startup {
    /// Show the snapshot that is at hand.
    UseSnapshot,
    /// Download the system list with this credential first.
    Download { token: String },
    /// A download is due, but no argument carries a credential.
    MissingToken,
}

fn has_prefix(text: &str, prefix: &str) -> (found: bool)
    ensures
        found == prefix@.is_prefix_of(text@),
{
    let text_len: usize = text.unicode_len();
    let prefix_len: usize = prefix.unicode_len();
    if text_len < prefix_len {
        false
    } else {
        let lead = String::from_str(text.substring_char(0, prefix_len));
        let wanted = String::from_str(prefix);
        lead == wanted
    }
}

/// Says whether one of the arguments asks for a fresh download.
pub fn download_forced(args: &Vec<String>) -> (forced: bool)
    ensures
        forced == download_forced_spec(args@),
{
    let flag = String::from_str("--download-systems");
    let mut i: usize = 0;
    while i < args.len()
        invariant
            i <= args.len(),
            flag@ == download_flag(),
            forall|j: int| 0 <= j < i ==> (#[trigger] args@[j])@ != download_flag(),
        decreases args.len() - i,
    {
        if args[i] == flag {
            return true;
        }
        i = i + 1;
    }
    false
}

/// The credential of the first argument that carries one.
pub fn find_token(args: &Vec<String>) -> (token: Option<String>)
    ensures
        match token {
            Some(t) => exists|i: int|
                is_first_token_argument(args@, i) && t@ == token_in((#[trigger] args@[i])@),
            None => no_token_argument(args@),
        },
{
    let mut i: usize = 0;
    while i < args.len()
        invariant
            i <= args.len(),
            forall|j: int| 0 <= j < i ==> !is_token_argument((#[trigger] args@[j])@),
        decreases args.len() - i,
    {
        let arg = args[i].as_str();
        if has_prefix(arg, "--token=") {
            let arg_len: usize = arg.unicode_len();
            let flag_len: usize = "--token=".unicode_len();
            let token = String::from_str(arg.substring_char(flag_len, arg_len));
            proof {
                assert(is_first_token_argument(args@, i as int));
                assert(token@ =~= token_in(args@[i as int]@));
            }
            return Some(token);
        }
        i = i + 1;
    }
    None
}

/// Decides what to do at start-up. Whether a snapshot is at hand only
/// matters when no argument asks for a fresh download.
pub fn plan_startup(args: &Vec<String>, snapshot_exists: bool) -> (plan: Startup)
    ensures
        match plan {
            Startup::UseSnapshot => !download_wanted(args@, snapshot_exists),
            Startup::Download { token } => download_wanted(args@, snapshot_exists) && exists|i: int|
                is_first_token_argument(args@, i) && token@ == token_in((#[trigger] args@[i])@),
            Startup::MissingToken => download_wanted(args@, snapshot_exists) && no_token_argument(
                args@,
            ),
        },
{
    if snapshot_exists && !download_forced(args) {
        Startup::UseSnapshot
    } else {
        match find_token(args) {
            Some(token) => Startup::Download { token },
            None => Startup::MissingToken,
        }
    }
}

} // verus!
