//! Building the execution report: the single string that combines what the
//! interpreter wrote to standard output and to standard error.

use vstd::prelude::*;

verus! {

/// What `String::from_utf8_lossy` returns for a given byte sequence: the
/// characters of the input decoded as UTF-8, with every invalid sequence
/// replaced. The result depends on the bytes alone.
pub uninterp spec fn lossy_decode(bytes: Seq<u8>) -> Seq<char>;

/// The separator line that precedes standard-error content in a report.
pub open spec fn errors_marker() -> Seq<char> {
    "\nErrors:\n"@
}

/// The report for a run whose standard output was `stdout` and whose
/// standard error was `stderr`: the decoded standard output if any,
/// then, if standard error is non-empty, the marker line followed by the
/// decoded standard error.
pub open spec fn report_of(stdout: Seq<u8>, stderr: Seq<u8>) -> Seq<char> {
    (if stdout.len() > 0 {
        lossy_decode(stdout)
    } else {
        Seq::<char>::empty()
    }) + (if stderr.len() > 0 {
        errors_marker() + lossy_decode(stderr)
    } else {
        Seq::<char>::empty()
    })
}

/// Relies on `String::from_utf8_lossy`: decodes the bytes as UTF-8,
/// replacing invalid sequences; a function of the bytes alone, and an
/// empty input gives an empty string.
#[verifier::external_body]
fn decode_lossy(bytes: &Vec<u8>) -> (r: String)
    ensures
        r@ == lossy_decode(bytes@),
        bytes@.len() == 0 ==> r@.len() == 0,
{
    String::from_utf8_lossy(bytes).into_owned()
}

/// Merge the captured output streams of one interpreter run into the
/// report handed back to the caller.
pub fn build_report(stdout: &Vec<u8>, stderr: &Vec<u8>) -> (r: String)
    ensures
        r@ == report_of(stdout@, stderr@),
{
    let mut result = String::new();
    if stdout.len() > 0 {
        let decoded = decode_lossy(stdout);
        result.append(decoded.as_str());
    }
    if stderr.len() > 0 {
        result.append("\nErrors:\n");
        let decoded = decode_lossy(stderr);
        result.append(decoded.as_str());
    }
    proof {
        assert(result@ =~= report_of(stdout@, stderr@));
    }
    result
}

/// A run that wrote only to standard output: the report is exactly the
/// decoded standard output, with no marker and no error section.
pub proof fn lemma_report_stdout_only(stdout: Seq<u8>, stderr: Seq<u8>)
    requires
        stdout.len() > 0,
        stderr.len() == 0,
    ensures
        report_of(stdout, stderr) == lossy_decode(stdout),
{
    assert(report_of(stdout, stderr) =~= lossy_decode(stdout));
}

/// A run that wrote only to standard error: the report is exactly the
/// marker line followed by the decoded standard error, with nothing
/// before the marker.
pub proof fn lemma_report_stderr_only(stdout: Seq<u8>, stderr: Seq<u8>)
    requires
        stdout.len() == 0,
        stderr.len() > 0,
    ensures
        report_of(stdout, stderr) == errors_marker() + lossy_decode(stderr),
{
    assert(report_of(stdout, stderr) =~= errors_marker() + lossy_decode(stderr));
}

/// A run that wrote to both streams: the report is the decoded standard
/// output, then the marker line, then the decoded standard error, in that
/// fixed order.
pub proof fn lemma_report_both_streams(stdout: Seq<u8>, stderr: Seq<u8>)
    requires
        stdout.len() > 0,
        stderr.len() > 0,
    ensures
        report_of(stdout, stderr) == lossy_decode(stdout) + errors_marker() + lossy_decode(
            stderr,
        ),
{
    assert(report_of(stdout, stderr) =~= lossy_decode(stdout) + errors_marker() + lossy_decode(
        stderr,
    ));
}

/// A run that wrote nothing to either stream: the report is empty.
pub proof fn lemma_report_silent(stdout: Seq<u8>, stderr: Seq<u8>)
    requires
        stdout.len() == 0,
        stderr.len() == 0,
    ensures
        report_of(stdout, stderr) == Seq::<char>::empty(),
{
    assert(report_of(stdout, stderr) =~= Seq::<char>::empty());
}

} // verus!
