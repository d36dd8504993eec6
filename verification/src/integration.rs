//! What is learned from a failed verification: the root cause read from the
//! verification's output, and the error memory that records it.

use vstd::prelude::*;
use vstd::string::*;
use vstd::utf8::*;
use crate::text::{append_str, byte_len, owned, seq_contains, occurs_at, str_contains, join_seq, join_strings, views_of};
use crate::prompt::{lowercase, to_lowercase};
use crate::claims::{claim_type_key, VerificationResult};
use crate::memory::MemoryContent;
use crate::duration::{duration_as_millis, duration_debug, duration_debug_text, duration_nanos};

verus! {

/// The index of the first occurrence of `n` in `h` at or after `i`, or `h.len()`
/// when there is none.
pub open spec fn first_occurrence_from(h: Seq<char>, n: Seq<char>, i: int) -> int
    decreases h.len() + 1 - i,
{
    if i < 0 || i + n.len() > h.len() {
        h.len() as int
    } else if occurs_at(h, n, i) {
        i
    } else {
        first_occurrence_from(h, n, i + 1)
    }
}

/// The index of the end of the line starting at `i`: the first `\n` at or after
/// `i`, or the end of `s`.
pub open spec fn line_end_from(s: Seq<char>, i: int) -> int
    decreases s.len() - i,
{
    if i < 0 || i >= s.len() {
        s.len() as int
    } else if s[i] == '\n' {
        i
    } else {
        line_end_from(s, i + 1)
    }
}

/// The first line of `s`, as `str::lines` yields it: up to the first `\n`, with a
/// `\r` just before that `\n` removed; `None` for the empty text.
pub open spec fn first_line(s: Seq<char>) -> Option<Seq<char>> {
    if s.len() == 0 {
        None
    } else {
        let k = line_end_from(s, 0);
        if k < s.len() && k > 0 && s[k - 1] == '\r' {
            Some(s.subrange(0, k - 1))
        } else {
            Some(s.subrange(0, k))
        }
    }
}

/// At most the first `n` characters of `s`.
pub open spec fn take_chars(s: Seq<char>, n: nat) -> Seq<char> {
    if s.len() <= n {
        s
    } else {
        s.subrange(0, n as int)
    }
}

/// The byte offset, in `lower`, of the first `error` there.
pub open spec fn error_offset(lower: Seq<char>) -> int {
    encode_utf8(lower.subrange(0, first_occurrence_from(lower, "error"@, 0))).len() as int
}

/// The analysis, given the lowercase form `lower` of the output, reaches the
/// `error` case: `lower` mentions `error` but none of the kinds checked before it.
pub open spec fn reaches_error_case(lower: Seq<char>) -> bool {
    &&& !seq_contains(lower, "not found"@)
    &&& !seq_contains(lower, "permission"@)
    &&& !seq_contains(lower, "denied"@)
    &&& !seq_contains(lower, "timeout"@)
    &&& seq_contains(lower, "error"@)
}

/// The cut that the `error` case makes: `output` is cut at the offset of the first
/// `error` in `lower`, which must be a character boundary of `output`.
pub open spec fn error_cut_ok(output: Seq<char>, lower: Seq<char>) -> bool {
    reaches_error_case(lower) ==> is_char_boundary(encode_utf8(output), error_offset(lower))
}

/// `output` from the offset of the first `error` in `lower` on.
pub open spec fn error_tail(output: Seq<char>, lower: Seq<char>) -> Seq<char> {
    let bytes = encode_utf8(output);
    decode_utf8(bytes.subrange(error_offset(lower), bytes.len() as int))
}

/// The root cause read from a verification's output, given its lowercase form `lower`: a
/// missing resource, an access problem or a timeout when `lower` mentions one;
/// else, when it mentions `error`, the first line of the output from there; else
/// the output's first line (`Unknown failure` for empty output); lines cut to 100
/// characters.
pub open spec fn root_cause_with(output: Seq<char>, lower: Seq<char>) -> Seq<char> {
    if seq_contains(lower, "not found"@) {
        "Resource not found"@
    } else if seq_contains(lower, "permission"@) || seq_contains(lower, "denied"@) {
        "Permission/access issue"@
    } else if seq_contains(lower, "timeout"@) {
        "Operation timed out"@
    } else if seq_contains(lower, "error"@) {
        let rest = error_tail(output, lower);
        take_chars(match first_line(rest) { Some(l) => l, None => rest }, 100)
    } else {
        take_chars(match first_line(output) { Some(l) => l, None => "Unknown failure"@ }, 100)
    }
}

/// The root cause read from a verification's output, with `str::to_lowercase` as the
/// lowercase form.
pub open spec fn failure_root_cause(output: Seq<char>) -> Seq<char> {
    root_cause_with(output, lowercase(output))
}

/// The index of the first occurrence of `n` in `h` (`h`'s length when none).
fn first_occurrence(h: &str, n: &str) -> (i: usize)
    ensures
        i == first_occurrence_from(h@, n@, 0),
{
    let hs = crate::text::chars_of(h);
    let ns = crate::text::chars_of(n);
    let hl = hs.len();
    let nl = ns.len();
    if nl > hl {
        return hl;
    }
    let mut i: usize = 0;
    while i <= hl - nl
        invariant
            hs@ == h@,
            ns@ == n@,
            hl == h@.len(),
            nl == n@.len(),
            nl <= hl,
            i <= hl - nl + 1,
            first_occurrence_from(h@, n@, 0) == first_occurrence_from(h@, n@, i as int),
        decreases hl - nl + 1 - i,
    {
        if crate::text::vec_occurs_at(&hs, &ns, i) {
            return i;
        }
        if i == hl - nl {
            assert(first_occurrence_from(h@, n@, i + 1) == h@.len());
            return hl;
        }
        i = i + 1;
    }
    hl
}

/// The index of the first `\n` of `s` (its length when none).
fn line_end(s: &Vec<char>) -> (k: usize)
    ensures
        k == line_end_from(s@, 0),
        k <= s@.len(),
{
    let mut i: usize = 0;
    while i < s.len()
        invariant
            i <= s@.len(),
            line_end_from(s@, 0) == line_end_from(s@, i as int),
        decreases s.len() - i,
    {
        if s[i] == '\n' {
            return i;
        }
        i = i + 1;
    }
    i
}

/// The characters `from..to` of `s`, collected into a string.
fn chars_range(s: &Vec<char>, from: usize, to: usize) -> (r: String)
    requires
        from <= to <= s@.len(),
    ensures
        r@ == s@.subrange(from as int, to as int),
{
    let mut r = String::new();
    let mut i: usize = from;
    while i < to
        invariant
            from <= i <= to <= s@.len(),
            r@ == s@.subrange(from as int, i as int),
        decreases to - i,
    {
        crate::text::push_char(&mut r, s[i]);
        i = i + 1;
        assert(r@ =~= s@.subrange(from as int, i as int));
    }
    r
}

/// The first line of `s` cut to 100 characters, or `fallback` cut so when `s` is empty.
fn first_line_cut(s: &str, fallback: &str) -> (r: String)
    ensures
        r@ == take_chars(match first_line(s@) { Some(l) => l, None => fallback@ }, 100),
{
    let cs = crate::text::chars_of(s);
    let line: Vec<char> = if cs.len() == 0 {
        crate::text::chars_of(fallback)
    } else {
        let k = line_end(&cs);
        let end = if k < cs.len() && k > 0 && cs[k - 1] == '\r' { k - 1 } else { k };
        let mut v: Vec<char> = Vec::new();
        let mut i: usize = 0;
        while i < end
            invariant
                end <= cs@.len(),
                i <= end,
                v@ == cs@.subrange(0, i as int),
            decreases end - i,
        {
            v.push(cs[i]);
            i = i + 1;
            assert(v@ =~= cs@.subrange(0, i as int));
        }
        v
    };
    let n = if line.len() <= 100 { line.len() } else { 100 };
    let r = chars_range(&line, 0, n);
    proof {
        assert(line@.subrange(0, line@.len() as int) =~= line@);
    }
    r
}

/// The root cause read from a verification's output `output`, given its lowercase form
/// `lower` (see `root_cause_with`).
pub fn root_cause_from(output: &str, lower: &str) -> (r: String)
    requires
        error_cut_ok(output@, lower@),
    ensures
        r@ == root_cause_with(output@, lower@),
{
    if str_contains(lower, "not found") {
        owned("Resource not found")
    } else if str_contains(lower, "permission") || str_contains(lower, "denied") {
        owned("Permission/access issue")
    } else if str_contains(lower, "timeout") {
        owned("Operation timed out")
    } else if str_contains(lower, "error") {
        let i = first_occurrence(lower, "error");
        proof {
            lemma_first_occurrence_bounded(lower@, "error"@, 0);
        }
        let head = lower.substring_char(0, i);
        let pos = byte_len(head);
        let (_front, rest) = output.split_at(pos);
        proof {
            encode_utf8_decode_utf8(rest@);
        }
        first_line_cut(rest, rest)
    } else {
        first_line_cut(output, "Unknown failure")
    }
}

/// The root cause read from a verification's output (see `failure_root_cause`). The cut at
/// the first `error` is made at the byte offset found in the lowercase form, which
/// must fall on a character boundary of the output.
pub fn analyze_failure(output: &str) -> (r: String)
    requires
        error_cut_ok(output@, lowercase(output@)),
    ensures
        r@ == failure_root_cause(output@),
{
    let lower = to_lowercase(output);
    root_cause_from(output, lower.as_str())
}

/// Whether the `error` case's cut falls on a character boundary of `output`
/// (see `error_cut_ok`), given its lowercase form `lower`.
pub fn error_cut_fits(output: &str, lower: &str) -> (b: bool)
    ensures
        b == error_cut_ok(output@, lower@),
{
    if str_contains(lower, "not found") || str_contains(lower, "permission") || str_contains(
        lower,
        "denied",
    ) || str_contains(lower, "timeout") || !str_contains(lower, "error") {
        true
    } else {
        let i = first_occurrence(lower, "error");
        proof {
            lemma_first_occurrence_bounded(lower@, "error"@, 0);
        }
        let head = lower.substring_char(0, i);
        let pos = byte_len(head);
        output.is_char_boundary(pos)
    }
}

/// The root cause read from a verification's output, when the `error` case's cut falls on
/// a character boundary of the output; `None` when it does not.
pub fn try_analyze_failure(output: &str) -> (r: Option<String>)
    ensures
        match r {
            Some(t) => error_cut_ok(output@, lowercase(output@)) && t@ == failure_root_cause(output@),
            None => !error_cut_ok(output@, lowercase(output@)),
        },
{
    let lower = to_lowercase(output);
    if error_cut_fits(output, lower.as_str()) {
        Some(analyze_failure(output))
    } else {
        None
    }
}

/// The first occurrence lies within the text.
proof fn lemma_first_occurrence_bounded(h: Seq<char>, n: Seq<char>, i: int)
    ensures
        first_occurrence_from(h, n, i) <= h.len(),
    decreases h.len() + 1 - i,
{
    if !(i < 0 || i + n.len() > h.len()) && !occurs_at(h, n, i) {
        lemma_first_occurrence_bounded(h, n, i + 1);
    }
}

/// The error memory of a failed verification: the failed assertion and its kind,
/// the root cause read from the output, and no solution yet; `None` when the root
/// cause cannot be read (see `try_analyze_failure`).
pub fn error_memory_content(result: &VerificationResult) -> (c: Option<MemoryContent>)
    ensures
        match c {
            Some(m) => error_cut_ok(result.output@, lowercase(result.output@)) && (
            m matches MemoryContent::ErrorResolution { error_pattern, root_cause, solution }
                && error_pattern@ == "Failed: "@ + result.claim.assertion@ + " ("@
                    + claim_type_key(result.claim.claim_type)@ + ")"@
                && root_cause@ == failure_root_cause(result.output@)
                && solution@.len() == 0),
            None => !error_cut_ok(result.output@, lowercase(result.output@)),
        },
{
    let cause = match try_analyze_failure(result.output.as_str()) {
        Some(t) => t,
        None => return None,
    };
    let mut pattern = owned("Failed: ");
    append_str(&mut pattern, result.claim.assertion.as_str());
    append_str(&mut pattern, " (");
    append_str(&mut pattern, result.claim.claim_type.type_key());
    append_str(&mut pattern, ")");
    Some(MemoryContent::ErrorResolution {
        error_pattern: pattern,
        root_cause: cause,
        solution: String::new(),
    })
}

/// What a passed verification teaches, when the verification took at least 100 ms: the
/// claim checked and its kind, its evidence joined by `; `, the outcome `Passed`,
/// and how long the verification took; `None` for a quicker one.
pub fn success_learning_content(result: &VerificationResult) -> (c: Option<MemoryContent>)
    ensures
        duration_nanos(result.duration) < 100_000_000 ==> c is None,
        duration_nanos(result.duration) >= 100_000_000 ==> (c matches Some(
            MemoryContent::InteractionLearning { situation, approach, outcome, lesson },
        ) && situation@ == "Verification of '"@ + result.claim.assertion@ + "' (type: "@
            + claim_type_key(result.claim.claim_type)@ + ")"@
            && approach@ == join_seq(views_of(result.claim.evidence@), "; "@)
            && outcome@ == "Passed"@
            && lesson@ == "Successful "@ + claim_type_key(result.claim.claim_type)@
                + " verification took "@ + duration_debug_text(duration_nanos(result.duration))),
{
    if duration_as_millis(result.duration) < 100 {
        return None;
    }
    let key = result.claim.claim_type.type_key();
    let mut situation = owned("Verification of '");
    append_str(&mut situation, result.claim.assertion.as_str());
    append_str(&mut situation, "' (type: ");
    append_str(&mut situation, key);
    append_str(&mut situation, ")");
    let mut lesson = owned("Successful ");
    append_str(&mut lesson, key);
    append_str(&mut lesson, " verification took ");
    let took = duration_debug(result.duration);
    append_str(&mut lesson, took.as_str());
    Some(MemoryContent::InteractionLearning {
        situation,
        approach: join_strings(&result.claim.evidence, "; "),
        outcome: owned("Passed"),
        lesson,
    })
}

} // verus!
