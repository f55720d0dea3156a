//! Reading what a run of `git` gave back.
use vstd::prelude::*;

use crate::text::{join, join_strings, trim, trimmed, views};

verus! {

/// What a finished `git` process left: whether it exited with success, and
/// the bytes of its standard output and standard error.
pub struct GitOutput {
    pub success: bool,
    pub stdout: Vec<u8>,
    pub stderr: Vec<u8>,
}

/// The text that `String::from_utf8_lossy` makes of some bytes.
pub uninterp spec fn lossy_utf8(bytes: Seq<u8>) -> Seq<char>;

/// Decodes bytes as UTF-8 with `String::from_utf8_lossy`. Its documentation
/// says that valid UTF-8 is returned as the same string; invalid sequences
/// become U+FFFD, which is left to the name `lossy_utf8`.
#[verifier::external_body]
fn decode_lossy(bytes: &Vec<u8>) -> (s: String)
    ensures
        s@ == lossy_utf8(bytes@),
        vstd::utf8::valid_utf8(bytes@) ==> s@ == vstd::utf8::decode_utf8(bytes@),
{
    String::from_utf8_lossy(bytes.as_slice()).into_owned()
}

/// The message for a run of `git` that failed, given what it wrote on
/// standard error.
pub open spec fn command_error_message(
    command: Seq<char>,
    args: Seq<Seq<char>>,
    stderr: Seq<char>,
) -> Seq<char> {
    let details = trim(stderr);
    let head = "`git "@ + command + " "@ + join(args, " "@) + "` failed"@;
    if details.len() == 0 {
        head
    } else {
        head + ": "@ + details
    }
}

/// What a run of `git` gives: its trimmed standard output when it succeeded,
/// else the failure message.
pub open spec fn git_result(
    command: Seq<char>,
    args: Seq<Seq<char>>,
    success: bool,
    stdout: Seq<u8>,
    stderr: Seq<u8>,
) -> Result<Seq<char>, Seq<char>> {
    if success {
        Ok(trim(lossy_utf8(stdout)))
    } else {
        Err(command_error_message(command, args, lossy_utf8(stderr)))
    }
}

/// Builds the failure message of `git command args` from what it wrote on
/// standard error.
pub fn failure_message(command: &str, args: &Vec<String>, stderr: &str) -> (m: String)
    ensures
        m@ == command_error_message(command@, views(args@), stderr@),
{
    let details = trimmed(stderr);
    let joined = join_strings(args, " ");
    let mut m = String::from_str("`git ");
    m.append(command);
    m.append(" ");
    m.append(joined.as_str());
    m.append("` failed");
    if details.unicode_len() != 0 {
        m.append(": ");
        m.append(details.as_str());
    }
    m
}

/// What a run of `git command args` gives, from its decoded output: the
/// trimmed standard output when it succeeded, else the failure message.
pub fn read_output(command: &str, args: &Vec<String>, success: bool, stdout: &str, stderr: &str) -> (r: Result<String, String>)
    ensures
        match r {
            Ok(s) => success && s@ == trim(stdout@),
            Err(m) => !success && m@ == command_error_message(command@, views(args@), stderr@),
        },
{
    if success {
        Ok(trimmed(stdout))
    } else {
        Err(failure_message(command, args, stderr))
    }
}

/// Builds the message for a failed run of `git command args`.
pub fn command_error(command: &str, args: &Vec<String>, output: &GitOutput) -> (m: String)
    ensures
        m@ == command_error_message(command@, views(args@), lossy_utf8(output.stderr@)),
        vstd::utf8::valid_utf8(output.stderr@) ==> m@ == command_error_message(
            command@,
            views(args@),
            vstd::utf8::decode_utf8(output.stderr@),
        ),
{
    let stderr = decode_lossy(&output.stderr);
    failure_message(command, args, stderr.as_str())
}

/// Reads the outcome of `git command args`: the trimmed standard output, or
/// the failure message when the process did not succeed.
pub fn git(command: &str, args: &Vec<String>, output: &GitOutput) -> (r: Result<String, String>)
    ensures
        match r {
            Ok(s) => git_result(command@, views(args@), output.success, output.stdout@, output.stderr@)
                == Ok::<Seq<char>, Seq<char>>(s@),
            Err(m) => git_result(command@, views(args@), output.success, output.stdout@, output.stderr@)
                == Err::<Seq<char>, Seq<char>>(m@),
        },
        (output.success && vstd::utf8::valid_utf8(output.stdout@)) ==> (r matches Ok(s) && s@ == trim(
            vstd::utf8::decode_utf8(output.stdout@),
        )),
        (!output.success && vstd::utf8::valid_utf8(output.stderr@)) ==> (r matches Err(m) && m@
            == command_error_message(
            command@,
            views(args@),
            vstd::utf8::decode_utf8(output.stderr@),
        )),
{
    if !output.success {
        return Err(command_error(command, args, output));
    }
    let stdout = decode_lossy(&output.stdout);
    read_output(command, args, true, stdout.as_str(), "")
}

} // verus!
