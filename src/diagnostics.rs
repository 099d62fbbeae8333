//! Classification of the validator's output into real errors and benign
//! warnings.
use vstd::prelude::*;

verus! {

/// Text of the validator's diagnostic that is a known false positive: a
/// cluster-scoped template referenced by another template cannot be resolved
/// when one file is linted offline.
pub const BENIGN_PATTERN: &'static str = "couldn't find cluster workflow template";

/// `pat` occurs in `s` as a contiguous run of characters.
pub open spec fn has_substring(s: Seq<char>, pat: Seq<char>) -> bool {
    exists|i: int| 0 <= i <= s.len() - pat.len() && #[trigger] s.subrange(i, i + pat.len()) == pat
}

/// The pieces of `s` between '\n' characters; there is always at least one.
pub open spec fn newline_pieces(s: Seq<char>) -> Seq<Seq<char>>
    decreases s.len(),
{
    if s.len() == 0 {
        seq![Seq::empty()]
    } else {
        let p = newline_pieces(s.drop_last());
        if s.last() == '\n' {
            p.push(Seq::empty())
        } else {
            p.update(p.len() - 1, p.last().push(s.last()))
        }
    }
}

/// A terminated line without the '\r' of a "\r\n" ending.
pub open spec fn strip_cr(l: Seq<char>) -> Seq<char> {
    if l.len() > 0 && l.last() == '\r' {
        l.drop_last()
    } else {
        l
    }
}

/// The lines of `s` as `str::lines` gives them: split at '\n', a '\r' right
/// before a '\n' dropped, and no empty line after a final '\n'.
pub open spec fn lines_of(s: Seq<char>) -> Seq<Seq<char>> {
    let p = newline_pieces(s);
    p.drop_last().map_values(|l: Seq<char>| strip_cr(l)) + if p.last().len() == 0 {
        Seq::empty()
    } else {
        seq![p.last()]
    }
}

/// A line is benign when it holds the known false-positive text.
pub open spec fn is_benign_line(l: Seq<char>) -> bool {
    has_substring(l, BENIGN_PATTERN@)
}

/// A line counts as a real error when it is neither empty nor benign.
pub open spec fn is_error_line(l: Seq<char>) -> bool {
    l.len() > 0 && !is_benign_line(l)
}

/// The real-error lines among `ls`, in their order.
pub open spec fn error_lines(ls: Seq<Seq<char>>) -> Seq<Seq<char>> {
    ls.filter(|l: Seq<char>| is_error_line(l))
}

/// The benign lines among `ls`, in their order.
pub open spec fn benign_lines(ls: Seq<Seq<char>>) -> Seq<Seq<char>> {
    ls.filter(|l: Seq<char>| is_benign_line(l))
}

/// The texts held by a sequence of strings.
pub open spec fn texts(v: Seq<String>) -> Seq<Seq<char>> {
    v.map_values(|s: String| s@)
}

/// What `String::from_utf8_lossy` makes of the bytes `b`.
pub uninterp spec fn utf8_lossy(b: Seq<u8>) -> Seq<char>;

/// The real errors that one invocation of the validator contributes: none
/// when it exited successfully, else the error lines of its output.
pub open spec fn invocation_errors(success: bool, stdout: Seq<u8>) -> Seq<Seq<char>> {
    if success {
        Seq::empty()
    } else {
        error_lines(lines_of(utf8_lossy(stdout)))
    }
}

/// The benign warnings that one invocation of the validator reports: none
/// when it exited successfully, else the benign lines of its output.
pub open spec fn invocation_warnings(success: bool, stdout: Seq<u8>) -> Seq<Seq<char>> {
    if success {
        Seq::empty()
    } else {
        benign_lines(lines_of(utf8_lossy(stdout)))
    }
}

/// The lines of a validator's output, split into real errors and benign
/// warnings.
pub struct Classified {
    pub errors: Vec<String>,
    pub warnings: Vec<String>,
}

/// Relies on `str::contains` with a `&str` pattern: true exactly when `pat`
/// occurs in `s`.
#[verifier::external_body]
fn contains_text(s: &str, pat: &str) -> (r: bool)
    ensures
        r == has_substring(s@, pat@),
{
    s.contains(pat)
}

/// Relies on `str::lines`: the lines of `s` without their line endings.
#[verifier::external_body]
fn split_lines(s: &str) -> (r: Vec<String>)
    ensures
        texts(r@) == lines_of(s@),
{
    s.lines().map(str::to_owned).collect()
}

/// Relies on `String::from_utf8_lossy`: the bytes decoded as UTF-8, with
/// invalid sequences replaced.
#[verifier::external_body]
fn decode_lossy(b: &[u8]) -> (r: String)
    ensures
        r@ == utf8_lossy(b@),
{
    String::from_utf8_lossy(b).into_owned()
}

/// Whether a line of output is the known false positive.
pub fn is_benign(line: &str) -> (r: bool)
    ensures
        r == is_benign_line(line@),
{
    contains_text(line, BENIGN_PATTERN)
}

/// Splits already separated lines into real errors and benign warnings,
/// keeping their order; empty lines are dropped.
pub fn classify_lines(lines: &Vec<String>) -> (r: Classified)
    ensures
        texts(r.errors@) == error_lines(texts(lines@)),
        texts(r.warnings@) == benign_lines(texts(lines@)),
{
    let mut errors: Vec<String> = Vec::new();
    let mut warnings: Vec<String> = Vec::new();
    let n = lines.len();
    let mut i: usize = 0;
    while i < n
        invariant
            n == lines.len(),
            i <= n,
            texts(errors@) == error_lines(texts(lines@).take(i as int)),
            texts(warnings@) == benign_lines(texts(lines@).take(i as int)),
        decreases n - i,
    {
        let line = &lines[i];
        let benign = is_benign(line.as_str());
        proof {
            let all = texts(lines@);
            assert(all.take(i + 1).drop_last() =~= all.take(i as int));
            assert(all.take(i + 1).last() == line@);
            reveal(Seq::filter);
        }
        if benign {
            warnings.push(line.clone());
        } else if !line.as_str().is_empty() {
            errors.push(line.clone());
        }
        proof {
            assert(texts(errors@) =~= error_lines(texts(lines@).take(i + 1)));
            assert(texts(warnings@) =~= benign_lines(texts(lines@).take(i + 1)));
        }
        i = i + 1;
    }
    proof {
        assert(texts(lines@).take(n as int) =~= texts(lines@));
    }
    Classified { errors, warnings }
}

/// Classifies the output of a failed invocation line by line.
pub fn classify_output(text: &str) -> (r: Classified)
    ensures
        texts(r.errors@) == error_lines(lines_of(text@)),
        texts(r.warnings@) == benign_lines(lines_of(text@)),
{
    let lines = split_lines(text);
    classify_lines(&lines)
}

/// The diagnostics of one invocation: nothing when the validator exited
/// successfully, whatever it printed; else its output classified.
pub fn invocation_diagnostics(success: bool, stdout: &[u8]) -> (r: Classified)
    ensures
        texts(r.errors@) == invocation_errors(success, stdout@),
        texts(r.warnings@) == invocation_warnings(success, stdout@),
        success ==> r.errors@.len() == 0,
{
    if success {
        let r = Classified { errors: Vec::new(), warnings: Vec::new() };
        proof {
            assert(texts(r.errors@) =~= Seq::empty());
            assert(texts(r.warnings@) =~= Seq::empty());
        }
        r
    } else {
        let text = decode_lossy(stdout);
        classify_output(text.as_str())
    }
}

} // verus!
