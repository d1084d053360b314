//! On-demand scans through `clamdscan`.
//!
//! Running the scanner is the caller's work; this module builds its command
//! lines and reads its reports.
use crate::text::{
    chars_of,
    contains,
    contains_seq,
    decode_utf8_lossy,
    is_prefix,
    last_word,
    lines,
    lines_of,
    owned,
    parse_u32,
    parse_unsigned,
    push_str,
    spec_utf8_lossy,
    starts_with,
    string_from,
    words,
};
use vstd::prelude::*;

verus! {

/// Why a scan failed.
#[derive(Debug)]
pub enum ScanError {
    /// `clamdscan` is not installed.
    NotFound,
    /// The scanner reported an error; its standard error output.
    Failed(String),
    /// Running the scanner failed.
    Io(std::io::Error),
}

/// Result of an on-demand scan.
pub struct ScanResult {
    /// Files scanned.
    pub scanned: u32,
    /// Infected files found.
    pub infected: u32,
    /// Report lines naming each finding.
    pub findings: Vec<String>,
}

/// `--socket=<path>`.
pub open spec fn socket_arg(socket: Seq<char>) -> Seq<char> {
    "--socket="@ + socket
}

fn socket_flag(socket: &str) -> (r: String)
    ensures
        r@ == socket_arg(socket@),
{
    let mut s = owned("--socket=");
    push_str(&mut s, socket);
    s
}

/// Arguments of the scan itself: stream the file contents to clamd, print
/// only infected files, no summary.
pub fn scan_args(path: &str, socket: &str) -> (r: Vec<String>)
    ensures
        r@.len() == 7,
        r@[0]@ == "--fdpass"@,
        r@[1]@ == "--stream"@,
        r@[2]@ == "--config-file=/dev/null"@,
        r@[3]@ == socket_arg(socket@),
        r@[4]@ == "--infected"@,
        r@[5]@ == "--no-summary"@,
        r@[6]@ == path@,
{
    let mut r: Vec<String> = Vec::new();
    r.push(owned("--fdpass"));
    r.push(owned("--stream"));
    r.push(owned("--config-file=/dev/null"));
    r.push(socket_flag(socket));
    r.push(owned("--infected"));
    r.push(owned("--no-summary"));
    r.push(owned(path));
    r
}

/// Arguments of the summary run that counts the scanned files.
pub fn summary_args(path: &str, socket: &str) -> (r: Vec<String>)
    ensures
        r@.len() == 3,
        r@[0]@ == "--fdpass"@,
        r@[1]@ == socket_arg(socket@),
        r@[2]@ == path@,
{
    let mut r: Vec<String> = Vec::new();
    r.push(owned("--fdpass"));
    r.push(socket_flag(socket));
    r.push(owned(path));
    r
}

/// Arguments of the check that clamd answers on its socket.
pub fn ping_args(socket: &str) -> (r: Vec<String>)
    ensures
        r@.len() == 2,
        r@[0]@ == "--ping"@,
        r@[1]@ == socket_arg(socket@),
{
    let mut r: Vec<String> = Vec::new();
    r.push(owned("--ping"));
    r.push(socket_flag(socket));
    r
}

/// The lines that hold `p`, in order.
pub open spec fn lines_containing(ls: Seq<Seq<char>>, p: Seq<char>) -> Seq<Seq<char>>
    decreases ls.len(),
{
    if ls.len() == 0 {
        seq![]
    } else if contains_seq(ls.last(), p) {
        lines_containing(ls.drop_last(), p).push(ls.last())
    } else {
        lines_containing(ls.drop_last(), p)
    }
}

/// The findings are exactly the report lines that hold the marker, in
/// report order: a line is kept if and only if it contains it.
pub proof fn law_findings_are_marked_lines(ls: Seq<Seq<char>>, p: Seq<char>)
    ensures
        lines_containing(ls, p) == ls.filter(|l: Seq<char>| contains_seq(l, p)),
    decreases ls.len(),
{
    reveal(Seq::filter);
    if ls.len() > 0 {
        law_findings_are_marked_lines(ls.drop_last(), p);
    }
}

/// The first line that starts with `p`.
pub open spec fn first_line_with_prefix(ls: Seq<Seq<char>>, p: Seq<char>) -> Option<Seq<char>>
    decreases ls.len(),
{
    if ls.len() == 0 {
        None
    } else {
        match first_line_with_prefix(ls.drop_last(), p) {
            Some(l) => Some(l),
            None => if is_prefix(p, ls.last()) {
                Some(ls.last())
            } else {
                None
            },
        }
    }
}

/// The number of scanned files a summary report gives: the last word of
/// its first `Scanned files:` line, or 0 when there is none or it is not a
/// `u32`.
pub open spec fn scanned_in(text: Seq<char>) -> nat {
    match first_line_with_prefix(lines(text), "Scanned files:"@) {
        Some(l) => if words(l).len() > 0 {
            match parse_unsigned(words(l).last(), u32::MAX as nat) {
                Some(v) => v,
                None => 0,
            }
        } else {
            0
        },
        None => 0,
    }
}

/// Reads the output of a scan: exit code 2 means the scan failed (with its
/// standard error as the reason); otherwise the findings are the report
/// lines that hold `FOUND`.
pub fn scan_findings(status_code: Option<i32>, stdout: &[u8], stderr: &[u8]) -> (r: Result<
    Vec<String>,
    ScanError,
>)
    ensures
        status_code == Some(2i32) ==> (r matches Err(ScanError::Failed(e)) && e@ == spec_utf8_lossy(
            stderr@,
        )),
        status_code != Some(2i32) ==> (r matches Ok(f) && f@.len() == lines_containing(
            lines(spec_utf8_lossy(stdout@)),
            "FOUND"@,
        ).len() && forall|i: int|
            0 <= i < f@.len() ==> #[trigger] f@[i]@ == lines_containing(
                lines(spec_utf8_lossy(stdout@)),
                "FOUND"@,
            )[i]),
{
    if status_code == Some(2i32) {
        return Err(ScanError::Failed(decode_utf8_lossy(stderr)));
    }
    let out = decode_utf8_lossy(stdout);
    let text = chars_of(out.as_str());
    let ls = lines_of(text.as_slice());
    let ghost all = lines(out@);
    let pat = chars_of("FOUND");
    let mut found: Vec<String> = Vec::new();
    let mut i: usize = 0;
    while i < ls.len()
        invariant
            i <= ls@.len() == all.len(),
            forall|j: int| 0 <= j < ls@.len() ==> #[trigger] ls@[j]@ == all[j],
            pat@ == "FOUND"@,
            found@.len() == lines_containing(all.take(i as int), "FOUND"@).len(),
            forall|j: int|
                0 <= j < found@.len() ==> #[trigger] found@[j]@ == lines_containing(
                    all.take(i as int),
                    "FOUND"@,
                )[j],
        decreases ls@.len() - i,
    {
        proof {
            assert(all.take(i + 1).drop_last() =~= all.take(i as int));
        }
        if contains(ls[i].as_slice(), pat.as_slice()) {
            found.push(string_from(ls[i].as_slice()));
        }
        i = i + 1;
    }
    proof {
        assert(all.take(all.len() as int) =~= all);
    }
    Ok(found)
}

/// Reads the number of scanned files from the output of the summary run,
/// if it ran; 0 when it did not or gives no count.
pub fn scanned_files(summary_stdout: Option<&[u8]>) -> (r: u32)
    ensures
        summary_stdout matches Some(b) ==> r as nat == scanned_in(spec_utf8_lossy(b@)),
        summary_stdout is None ==> r == 0,
{
    let b = match summary_stdout {
        Some(b) => b,
        None => {
            return 0;
        },
    };
    let out = decode_utf8_lossy(b);
    let text = chars_of(out.as_str());
    let ls = lines_of(text.as_slice());
    let ghost all = lines(out@);
    let pre = chars_of("Scanned files:");
    let mut i: usize = 0;
    while i < ls.len()
        invariant
            i <= ls@.len() == all.len(),
            forall|j: int| 0 <= j < ls@.len() ==> #[trigger] ls@[j]@ == all[j],
            pre@ == "Scanned files:"@,
            summary_stdout == Some(b),
            all == lines(spec_utf8_lossy(b@)),
            first_line_with_prefix(all.take(i as int), "Scanned files:"@) is None,
        decreases ls@.len() - i,
    {
        proof {
            assert(all.take(i + 1).drop_last() =~= all.take(i as int));
        }
        if starts_with(ls[i].as_slice(), pre.as_slice()) {
            proof {
                assert(first_line_with_prefix(all.take(i + 1), "Scanned files:"@) == Some(all[i as int]));
                lemma_first_line_prefix(all, "Scanned files:"@, i + 1);
            }
            return match last_word(ls[i].as_slice()) {
                Some(w) => match parse_u32(w.as_slice()) {
                    Some(n) => n,
                    None => 0,
                },
                None => 0,
            };
        }
        i = i + 1;
    }
    proof {
        assert(all.take(all.len() as int) =~= all);
    }
    0
}

proof fn lemma_first_line_prefix(ls: Seq<Seq<char>>, p: Seq<char>, k: int)
    requires
        0 <= k <= ls.len(),
        first_line_with_prefix(ls.take(k), p) is Some,
    ensures
        first_line_with_prefix(ls, p) == first_line_with_prefix(ls.take(k), p),
    decreases ls.len() - k,
{
    if k < ls.len() {
        assert(ls.take(k + 1).drop_last() =~= ls.take(k));
        lemma_first_line_prefix(ls, p, k + 1);
    } else {
        assert(ls.take(k) =~= ls);
    }
}

impl ScanResult {
    /// A scan result from its findings and the number of scanned files; the
    /// infected count is the number of findings (as a `u32`).
    pub fn from_findings(scanned: u32, findings: Vec<String>) -> (r: ScanResult)
        ensures
            r.scanned == scanned,
            r.infected == findings@.len() as u32,
            r.findings == findings,
    {
        let infected = findings.len() as u32;
        ScanResult { scanned, infected, findings }
    }
}

} // verus!
