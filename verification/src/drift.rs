//! Corrections applied when an agent's work drifts, and the report of them.

use vstd::prelude::*;
use vstd::string::*;
use vstd::utf8::*;
use crate::text::{append_str, byte_len, byte_prefix, decimal, decimal_text, owned, lemma_encode_utf8_concat, views_of};

verus! {

/// An action taken to correct drift.
#[derive(Debug, Clone)]
pub enum CorrectionAction {
    RefreshedContext,
    ForcedExploration { areas: Vec<String> },
    PromptInjection { prompt: String },
    FreshApproach { approach: String },
    ResolvedContradiction { resolution: String },
    Escalated { reason: String },
}

/// The snake-case name of a correction kind.
pub open spec fn correction_action_name(a: CorrectionAction) -> &'static str {
    match a {
        CorrectionAction::RefreshedContext => "refreshed_context",
        CorrectionAction::ForcedExploration { .. } => "forced_exploration",
        CorrectionAction::PromptInjection { .. } => "prompt_injection",
        CorrectionAction::FreshApproach { .. } => "fresh_approach",
        CorrectionAction::ResolvedContradiction { .. } => "resolved_contradiction",
        CorrectionAction::Escalated { .. } => "escalated",
    }
}

impl CorrectionAction {
    /// The snake-case name of the action's kind.
    pub fn action_type(&self) -> (s: &'static str)
        ensures
            s == correction_action_name(*self),
    {
        match self {
            CorrectionAction::RefreshedContext => "refreshed_context",
            CorrectionAction::ForcedExploration { .. } => "forced_exploration",
            CorrectionAction::PromptInjection { .. } => "prompt_injection",
            CorrectionAction::FreshApproach { .. } => "fresh_approach",
            CorrectionAction::ResolvedContradiction { .. } => "resolved_contradiction",
            CorrectionAction::Escalated { .. } => "escalated",
        }
    }
}

/// Report of the corrections applied to address drift.
#[derive(Debug, Clone)]
pub struct CorrectionReport {
    /// Actions taken, in order.
    pub actions: Vec<CorrectionAction>,
    /// Whether the correction succeeded.
    pub success: bool,
    /// Notes, in order.
    pub notes: Vec<String>,
}

impl Default for CorrectionReport {
    fn default() -> (r: Self)
        ensures
            r.actions@.len() == 0,
            !r.success,
            r.notes@.len() == 0,
    {
        CorrectionReport { actions: Vec::new(), success: false, notes: Vec::new() }
    }
}

impl CorrectionReport {
    /// An empty, unsuccessful report.
    pub fn new() -> (r: Self)
        ensures
            r.actions@.len() == 0,
            !r.success,
            r.notes@.len() == 0,
    {
        Self::default()
    }

    /// Appends an action.
    pub fn add_action(&mut self, action: CorrectionAction)
        ensures
            final(self).actions@ == old(self).actions@.push(action),
            final(self).success == old(self).success,
            final(self).notes == old(self).notes,
    {
        self.actions.push(action);
    }

    /// Appends a note.
    pub fn add_note(&mut self, note: &str)
        ensures
            final(self).actions == old(self).actions,
            final(self).success == old(self).success,
            final(self).notes@.len() == old(self).notes@.len() + 1,
            final(self).notes@.drop_last() == old(self).notes@,
            final(self).notes@.last()@ == note@,
    {
        self.notes.push(owned(note));
    }

    /// Marks the correction as successful.
    pub fn mark_success(&mut self)
        ensures
            final(self).actions == old(self).actions,
            final(self).success,
            final(self).notes == old(self).notes,
    {
        self.success = true;
    }
}

/// The UTF-8 bytes of `s` shortened to at most `max_len` bytes: `s` itself when it
/// fits, else its first `max_len - 3` bytes followed by `...`; below three bytes
/// only the first `max_len` dots of the ellipsis are left.
pub open spec fn truncated_bytes(s: Seq<u8>, max_len: nat) -> Seq<u8> {
    if s.len() <= max_len {
        s
    } else if max_len >= 3 {
        s.subrange(0, max_len - 3) + encode_utf8("..."@)
    } else {
        encode_utf8("..."@.subrange(0, max_len as int))
    }
}

/// Characters below 0x80 take one byte each.
proof fn lemma_ascii_encoding_len(cs: Seq<char>)
    requires
        forall|i: int| 0 <= i < cs.len() ==> (cs[i] as u32) <= 0x7f,
    ensures
        encode_utf8(cs).len() == cs.len(),
    decreases cs.len(),
{
    if cs.len() > 0 {
        lemma_ascii_encoding_len(cs.drop_first());
    }
}

/// `s` shortened to at most `max_len` bytes, as characters.
pub open spec fn truncated_text(s: Seq<char>, max_len: nat) -> Seq<char> {
    decode_utf8(truncated_bytes(encode_utf8(s), max_len))
}

/// Shortens `s` to at most `max_len` bytes, ending in an ellipsis when it was cut;
/// the cut must fall on a character boundary.
pub fn truncate(s: &str, max_len: usize) -> (r: String)
    requires
        s.spec_bytes().len() > max_len && max_len >= 3 ==> is_char_boundary(s.spec_bytes(),
            max_len - 3),
    ensures
        encode_utf8(r@) == truncated_bytes(s.spec_bytes(), max_len as nat),
        r@ == truncated_text(s@, max_len as nat),
        encode_utf8(r@).len() <= max_len,
{
    let r = shorten(s, max_len);
    proof {
        encode_utf8_decode_utf8(r@);
    }
    r
}

/// The bytes of `shorten(s, max_len)` are `truncated_bytes`.
fn shorten(s: &str, max_len: usize) -> (r: String)
    requires
        s.spec_bytes().len() > max_len && max_len >= 3 ==> is_char_boundary(s.spec_bytes(),
            max_len - 3),
    ensures
        encode_utf8(r@) == truncated_bytes(s.spec_bytes(), max_len as nat),
        encode_utf8(r@).len() <= max_len,
{
    proof {
        reveal_strlit("...");
        assert forall|k: int| 0 <= k <= 3 implies encode_utf8("..."@.subrange(0, k)).len() == k by {
            lemma_ascii_encoding_len("..."@.subrange(0, k));
        }
        assert("..."@.subrange(0, 3) =~= "..."@);
    }
    if byte_len(s) <= max_len {
        owned(s)
    } else if max_len >= 3 {
        let mut r = byte_prefix(s, max_len - 3);
        let ghost head = r@;
        append_str(&mut r, "...");
        proof {
            lemma_encode_utf8_concat(head, "..."@);
        }
        r
    } else if max_len == 2 {
        let r = owned("..");
        proof {
            reveal_strlit("..");
            assert(".."@ =~= "..."@.subrange(0, 2));
        }
        r
    } else if max_len == 1 {
        let r = owned(".");
        proof {
            reveal_strlit(".");
            assert("."@ =~= "..."@.subrange(0, 1));
        }
        r
    } else {
        let r = String::new();
        proof {
            assert(r@ =~= "..."@.subrange(0, 0));
        }
        r
    }
}

/// The prompt injected against risk aversion.
pub const RISK_AVERSION_PROMPT: &'static str = "Consider larger, more impactful changes. Small incremental changes may indicate tunnel vision or reluctance to make necessary modifications.";

/// The advice given after a run of similar actions.
pub const FRESH_APPROACH_ADVICE: &'static str = "'. Consider:\n1. Re-examine the original goal\n2. Try a completely different approach\n3. Break down the problem differently\n4. Check if assumptions are still valid";

/// The end of a contradiction's resolution.
pub const CONTRADICTION_ADVICE: &'static str = "\n\nResolution: Re-verify both claims independently. One or both may be based on stale information.";

/// A drift signal as the corrector sees it: its kind and the texts the correction
/// is built from. The tunnel-vision case carries the neglected topics.
#[derive(Debug, Clone)]
pub enum DriftCase {
    HighFailureRate,
    RepeatedFailures { claim_type: String },
    TunnelVision { neglected: Vec<String> },
    RiskAversion,
    CircularReasoning { pattern: String },
    StaleContext,
    Contradiction { claim_a: String, claim_b: String },
}

/// The fresh approach suggested when stuck in `pattern`.
pub open spec fn fresh_approach_text(pattern: Seq<char>) -> Seq<char> {
    "The agent appears stuck in pattern: '"@ + truncated_text(pattern, 100) + FRESH_APPROACH_ADVICE@
}

/// The resolution proposed for two contradicting claims.
pub open spec fn contradiction_text(a: Seq<char>, b: Seq<char>) -> Seq<char> {
    "Contradiction detected:\n- Claim A: "@ + truncated_text(a, 100) + "\n- Claim B: "@
        + truncated_text(b, 100) + CONTRADICTION_ADVICE@
}

/// The texts of `c` can be cut to 100 bytes (a longer text must have a character
/// boundary at byte 97).
pub open spec fn cuttable(c: DriftCase) -> bool {
    match c {
        DriftCase::CircularReasoning { pattern } => cut_ok(pattern@),
        DriftCase::Contradiction { claim_a, claim_b } => cut_ok(claim_a@) && cut_ok(claim_b@),
        _ => true,
    }
}

/// A text that `truncate` can cut to 100 bytes.
pub open spec fn cut_ok(t: Seq<char>) -> bool {
    encode_utf8(t).len() > 100 ==> is_char_boundary(encode_utf8(t), 97)
}

/// `a` is the correction for `c`: a context refresh for high failure rates and
/// stale context, a fresh approach for repeated failures and circular reasoning,
/// forced exploration of the neglected topics for tunnel vision, a prompt against
/// risk aversion, and a resolution for contradictions.
pub open spec fn is_correction_for(a: CorrectionAction, c: DriftCase) -> bool {
    match c {
        DriftCase::HighFailureRate => a is RefreshedContext,
        DriftCase::RepeatedFailures { claim_type } => a matches CorrectionAction::FreshApproach { approach }
            && approach@ == "Consider alternative verification strategy for "@ + claim_type@ + " claims"@,
        DriftCase::TunnelVision { neglected } => a matches CorrectionAction::ForcedExploration { areas }
            && views_of(areas@) == views_of(neglected@),
        DriftCase::RiskAversion => a matches CorrectionAction::PromptInjection { prompt }
            && prompt@ == RISK_AVERSION_PROMPT@,
        DriftCase::CircularReasoning { pattern } => a matches CorrectionAction::FreshApproach { approach }
            && approach@ == fresh_approach_text(pattern@),
        DriftCase::StaleContext => a is RefreshedContext,
        DriftCase::Contradiction { claim_a, claim_b } => a matches CorrectionAction::ResolvedContradiction { resolution }
            && resolution@ == contradiction_text(claim_a@, claim_b@),
    }
}

/// A copy of a list of strings.
fn copy_strings(v: &Vec<String>) -> (r: Vec<String>)
    ensures
        views_of(r@) == views_of(v@),
{
    let mut r: Vec<String> = Vec::new();
    let mut i: usize = 0;
    while i < v.len()
        invariant
            i <= v@.len(),
            views_of(r@) == views_of(v@.subrange(0, i as int)),
        decreases v.len() - i,
    {
        let ghost before = r@;
        let t = v[i].clone();
        r.push(t);
        proof {
            assert(v@.subrange(0, i + 1) =~= v@.subrange(0, i as int).push(v@[i as int]));
            assert(views_of(v@.subrange(0, i + 1)) =~= views_of(v@.subrange(0, i as int)).push(v@[i as int]@));
            assert(views_of(r@) =~= views_of(before).push(t@));
        }
        i = i + 1;
    }
    assert(v@.subrange(0, v@.len() as int) =~= v@);
    r
}

/// The correction for one drift case.
pub fn correction_for(c: &DriftCase) -> (a: CorrectionAction)
    requires
        cuttable(*c),
    ensures
        is_correction_for(a, *c),
{
    match c {
        DriftCase::HighFailureRate => CorrectionAction::RefreshedContext,
        DriftCase::RepeatedFailures { claim_type } => {
            let mut approach = owned("Consider alternative verification strategy for ");
            append_str(&mut approach, claim_type.as_str());
            append_str(&mut approach, " claims");
            CorrectionAction::FreshApproach { approach }
        },
        DriftCase::TunnelVision { neglected } => CorrectionAction::ForcedExploration { areas: copy_strings(neglected) },
        DriftCase::RiskAversion => CorrectionAction::PromptInjection { prompt: owned(RISK_AVERSION_PROMPT) },
        DriftCase::CircularReasoning { pattern } => {
            let shown = truncate(pattern.as_str(), 100);
            let mut approach = owned("The agent appears stuck in pattern: '");
            append_str(&mut approach, shown.as_str());
            append_str(&mut approach, FRESH_APPROACH_ADVICE);
            CorrectionAction::FreshApproach { approach }
        },
        DriftCase::StaleContext => CorrectionAction::RefreshedContext,
        DriftCase::Contradiction { claim_a, claim_b } => {
            let a = truncate(claim_a.as_str(), 100);
            let b = truncate(claim_b.as_str(), 100);
            let mut resolution = owned("Contradiction detected:\n- Claim A: ");
            append_str(&mut resolution, a.as_str());
            append_str(&mut resolution, "\n- Claim B: ");
            append_str(&mut resolution, b.as_str());
            append_str(&mut resolution, CONTRADICTION_ADVICE);
            CorrectionAction::ResolvedContradiction { resolution }
        },
    }
}

/// The report of correcting the drift cases `cases`, one action per case in order,
/// with the notes `notes`; it succeeds when any action was taken.
pub fn correct_cases(cases: &Vec<DriftCase>, notes: Vec<String>) -> (r: CorrectionReport)
    requires
        notes@.len() == cases@.len(),
        forall|i: int| 0 <= i < cases@.len() ==> cuttable(#[trigger] cases@[i]),
    ensures
        r.actions@.len() == cases@.len(),
        forall|i: int| 0 <= i < cases@.len() ==> is_correction_for(#[trigger] r.actions@[i], cases@[i]),
        r.notes@ == notes@,
        r.success == (cases@.len() > 0),
{
    let mut actions: Vec<CorrectionAction> = Vec::new();
    let mut i: usize = 0;
    while i < cases.len()
        invariant
            i <= cases@.len(),
            forall|k: int| 0 <= k < cases@.len() ==> cuttable(#[trigger] cases@[k]),
            actions@.len() == i,
            forall|k: int| 0 <= k < i ==> is_correction_for(#[trigger] actions@[k], cases@[k]),
        decreases cases.len() - i,
    {
        let a = correction_for(&cases[i]);
        actions.push(a);
        i = i + 1;
    }
    let success = actions.len() > 0;
    CorrectionReport { actions, success, notes }
}

/// A text that `truncate` can cut to 50 bytes.
pub open spec fn cut_ok_50(t: Seq<char>) -> bool {
    encode_utf8(t).len() > 50 ==> is_char_boundary(encode_utf8(t), 47)
}

/// The note on repeated failures of claims of kind `claim_type`, `count` times.
pub fn repeated_failures_note(claim_type: &str, count: u32) -> (r: String)
    ensures
        r@ == "Repeated failures on "@ + claim_type@ + ": "@ + decimal(count as nat) + " times"@,
{
    let mut r = owned("Repeated failures on ");
    append_str(&mut r, claim_type);
    append_str(&mut r, ": ");
    let n = decimal_text(count as u64);
    append_str(&mut r, n.as_str());
    append_str(&mut r, " times");
    r
}

/// The note, and the description, of circular reasoning on the pattern `pattern`.
pub fn circular_reasoning_note(pattern: &str) -> (r: String)
    ensures
        r@ == "Circular reasoning detected: "@ + pattern@,
{
    let mut r = owned("Circular reasoning detected: ");
    append_str(&mut r, pattern);
    r
}

/// The note on contradictory claims `a` and `b`, each shortened to 50 bytes.
pub fn contradiction_note(a: &str, b: &str) -> (r: String)
    requires
        cut_ok_50(a@),
        cut_ok_50(b@),
    ensures
        r@ == "Contradiction detected between claims: '"@ + truncated_text(a@, 50) + "' vs '"@
            + truncated_text(b@, 50) + "'"@,
{
    let mut r = owned("Contradiction detected between claims: '");
    let ta = truncate(a, 50);
    append_str(&mut r, ta.as_str());
    append_str(&mut r, "' vs '");
    let tb = truncate(b, 50);
    append_str(&mut r, tb.as_str());
    append_str(&mut r, "'");
    r
}

/// The first `n` characters of `s` (all of them when it has fewer).
pub open spec fn first_chars(s: Seq<char>, n: nat) -> Seq<char> {
    if s.len() <= n {
        s
    } else {
        s.subrange(0, n as int)
    }
}

fn first_chars_text(s: &str, n: usize) -> (r: String)
    ensures
        r@ == first_chars(s@, n as nat),
{
    let len = s.unicode_len();
    let k = if len <= n { len } else { n };
    let r = owned(s.substring_char(0, k));
    proof {
        assert(s@.subrange(0, s@.len() as int) =~= s@);
    }
    r
}

/// The description of repeated failures of claims of kind `claim_type`.
pub fn repeated_failures_description(claim_type: &str, count: u32) -> (r: String)
    ensures
        r@ == "Repeated failures on claim type '"@ + claim_type@ + "': "@ + decimal(count as nat)
            + " failures"@,
{
    let mut r = owned("Repeated failures on claim type '");
    append_str(&mut r, claim_type);
    append_str(&mut r, "': ");
    let n = decimal_text(count as u64);
    append_str(&mut r, n.as_str());
    append_str(&mut r, " failures");
    r
}

/// The description of contradictory claims `a` and `b`, each cut to 50 characters.
pub fn contradiction_description(a: &str, b: &str) -> (r: String)
    ensures
        r@ == "Contradictory claims: '"@ + first_chars(a@, 50) + "' vs '"@ + first_chars(b@, 50) + "'"@,
{
    let mut r = owned("Contradictory claims: '");
    let ta = first_chars_text(a, 50);
    append_str(&mut r, ta.as_str());
    append_str(&mut r, "' vs '");
    let tb = first_chars_text(b, 50);
    append_str(&mut r, tb.as_str());
    append_str(&mut r, "'");
    r
}

/// The text that the `Debug` impl of `Vec<String>` writes for strings with the
/// texts `v` (each quoted and escaped, in brackets, separated by `, `).
pub uninterp spec fn strings_debug_text(v: Seq<Seq<char>>) -> Seq<char>;

/// Formats `v` with the `Debug` impl of `Vec<String>`. Claims only that the text is
/// a function of the strings' texts.
#[verifier::external_body]
fn strings_debug(v: &Vec<String>) -> (r: String)
    ensures
        r@ == strings_debug_text(views_of(v@)),
{
    format!("{:?}", v)
}

/// The note on tunnel vision, naming the neglected topics.
pub fn tunnel_vision_note(neglected: &Vec<String>) -> (r: String)
    ensures
        r@ == "Tunnel vision detected. Neglected areas: "@ + strings_debug_text(views_of(neglected@)),
{
    let mut r = owned("Tunnel vision detected. Neglected areas: ");
    let list = strings_debug(neglected);
    append_str(&mut r, list.as_str());
    r
}

} // verus!
