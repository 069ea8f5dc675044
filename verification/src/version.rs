use vstd::prelude::*;
use vstd::string::*;

verus! {

/// The git sha recorded at build time, or `"0000"` when none was recorded.
pub open spec fn sha_or_default(sha: Option<Seq<char>>) -> Seq<char> {
    match sha {
        Some(s) => s,
        None => "0000"@,
    }
}

/// The view of an optional string slice.
pub open spec fn opt_str_view(s: Option<&str>) -> Option<Seq<char>> {
    match s {
        Some(t) => Some(t@),
        None => None,
    }
}

/// The git sha of the build in parentheses, `"(0000)"` when the build
/// recorded none. `sha` is the value of `DELIV_CLI_GIT_SHA` at build time.
pub fn build_git_sha(sha: Option<&str>) -> (res: String)
    ensures
        res@ == "("@ + sha_or_default(opt_str_view(sha)) + ")"@,
{
    let s = match sha {
        Some(s) => s,
        None => "0000",
    };
    let mut res = String::from_str("(");
    res.append(s);
    res.append(")");
    res
}

/// The compiler version recorded at build time, `"rustc UNKNOWN"` when the
/// build recorded none. `recorded` is the value of `RUSTC_VERSION` at build time.
pub fn rustc_version(recorded: Option<&str>) -> (res: String)
    ensures
        res@ == match recorded {
            Some(v) => v@,
            None => "rustc UNKNOWN"@,
        },
{
    match recorded {
        Some(v) => String::from_str(v),
        None => String::from_str("rustc UNKNOWN"),
    }
}

} // verus!

verus! {

/// The line that `delivery --version` prints: the build time, the git sha in
/// parentheses, and on a second line the compiler version.
pub open spec fn version_text(time: Seq<char>, sha: Seq<char>, rustc: Seq<char>) -> Seq<char> {
    "delivery "@ + time + " "@ + sha + "\n"@ + rustc
}

/// The version message, in white, from the build time `time` and the parts
/// that `build_git_sha` and `rustc_version` give.
pub fn version_message(time: &str, sha: &str, rustc: &str) -> (res: crate::message::Message)
    ensures
        res@ == crate::message::sayln(crate::message::Color::White, version_text(time@, sha@, rustc@)),
{
    let mut text = String::from_str("delivery ");
    text.append(time);
    text.append(" ");
    text.append(sha);
    text.append("\n");
    text.append(rustc);
    crate::message::Message { color: crate::message::Color::White, text, newline: true }
}

} // verus!
