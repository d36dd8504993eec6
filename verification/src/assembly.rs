//! Text measures and transformations used when assembling context: token
//! estimates, compression of long content, and the rendering of memories.

use vstd::prelude::*;
use vstd::string::*;
use vstd::utf8::*;
use crate::memory::MemoryContent;
use crate::text::{append_str, byte_len, byte_prefix, join_seq, join_strings, owned, views_of, seq_contains,
    lemma_encode_utf8_concat};

verus! {

/// The longest content, in bytes, that compression leaves whole.
pub const MAX_CONTENT_LEN: usize = 2000;

/// The estimated number of tokens of a text of `bytes` UTF-8 bytes: one per four
/// bytes, at least one, kept to its low 32 bits.
pub open spec fn token_estimate(bytes: nat) -> nat {
    (if bytes / 4 >= 1 { bytes / 4 } else { 1 }) % 0x1_0000_0000
}

/// Estimates the tokens of a text: one per four bytes, at least one.
pub fn estimate_tokens(text: &str) -> (n: u32)
    ensures
        n as nat == token_estimate(text.spec_bytes().len()),
{
    let q = byte_len(text) / 4;
    let m: u64 = if q > 1 { q as u64 } else { 1 };
    (m % 0x1_0000_0000) as u32
}

/// The UTF-8 bytes of compressed content: the content itself when it has at most
/// `MAX_CONTENT_LEN` bytes, else its first `MAX_CONTENT_LEN` bytes and `...[truncated]`.
pub open spec fn compressed_bytes(content: Seq<u8>) -> Seq<u8> {
    if content.len() <= MAX_CONTENT_LEN {
        content
    } else {
        content.subrange(0, MAX_CONTENT_LEN as int) + encode_utf8("...[truncated]"@)
    }
}

/// Compresses long content by cutting it after `MAX_CONTENT_LEN` bytes, which must
/// then fall on a character boundary.
pub fn compress_content(content: &str) -> (r: String)
    requires
        content.spec_bytes().len() > MAX_CONTENT_LEN ==> is_char_boundary(content.spec_bytes(),
            MAX_CONTENT_LEN as int),
    ensures
        encode_utf8(r@) == compressed_bytes(content.spec_bytes()),
{
    if byte_len(content) <= MAX_CONTENT_LEN {
        owned(content)
    } else {
        let mut r = byte_prefix(content, MAX_CONTENT_LEN);
        let ghost head = r@;
        append_str(&mut r, "...[truncated]");
        proof {
            lemma_encode_utf8_concat(head, "...[truncated]"@);
        }
        r
    }
}

/// `", "`-separated list after a label, or nothing for an empty list.
pub open spec fn labelled_list(label: Seq<char>, items: Seq<Seq<char>>) -> Seq<char> {
    if items.len() == 0 {
        Seq::empty()
    } else {
        label + join_seq(items, ", "@)
    }
}

fn labelled_list_text(label: &str, items: &Vec<String>) -> (r: String)
    ensures
        r@ == labelled_list(label@, views_of(items@)),
{
    if items.len() == 0 {
        String::new()
    } else {
        let mut r = owned(label);
        let joined = join_strings(items, ", ");
        append_str(&mut r, joined.as_str());
        r
    }
}

/// The rendering of a memory for inclusion in context: one `**Label**: value` line
/// per field, in field order; a list field's line only when the list is not empty.
pub open spec fn memory_text(content: MemoryContent) -> Seq<char> {
    match content {
        MemoryContent::CodePattern { pattern, example, applicability } =>
            "**Pattern**: "@ + pattern@ + "\n**Example**: "@ + example@
                + "\n**Applicability**: "@ + applicability@,
        MemoryContent::Decision { context, decision, rationale, alternatives_considered } =>
            "**Context**: "@ + context@ + "\n**Decision**: "@ + decision@
                + "\n**Rationale**: "@ + rationale@
                + labelled_list("\n**Alternatives**: "@, views_of(alternatives_considered@)),
        MemoryContent::ErrorResolution { error_pattern, root_cause, solution } =>
            "**Error**: "@ + error_pattern@ + "\n**Root Cause**: "@ + root_cause@
                + "\n**Solution**: "@ + solution@,
        MemoryContent::CodebaseKnowledge { path, summary, key_concepts } =>
            "**Path**: "@ + path@ + "\n**Summary**: "@ + summary@
                + labelled_list("\n**Key Concepts**: "@, views_of(key_concepts@)),
        MemoryContent::Constraint { description, source, implications } =>
            "**Constraint**: "@ + description@ + "\n**Source**: "@ + source@
                + labelled_list("\n**Implications**: "@, views_of(implications@)),
        MemoryContent::InteractionLearning { situation, approach, outcome, lesson } =>
            "**Situation**: "@ + situation@ + "\n**Approach**: "@ + approach@
                + "\n**Outcome**: "@ + outcome@ + "\n**Lesson**: "@ + lesson@,
    }
}

/// Renders a memory for inclusion in context, one labelled line per field (see
/// `memory_text`).
pub fn format_memory_content(content: &MemoryContent) -> (r: String)
    ensures
        r@ == memory_text(*content),
{
    match content {
        MemoryContent::CodePattern { pattern, example, applicability } => {
            let mut r = owned("**Pattern**: ");
            append_str(&mut r, pattern.as_str());
            append_str(&mut r, "\n**Example**: ");
            append_str(&mut r, example.as_str());
            append_str(&mut r, "\n**Applicability**: ");
            append_str(&mut r, applicability.as_str());
            r
        },
        MemoryContent::Decision { context, decision, rationale, alternatives_considered } => {
            let alts = labelled_list_text("\n**Alternatives**: ", alternatives_considered);
            let mut r = owned("**Context**: ");
            append_str(&mut r, context.as_str());
            append_str(&mut r, "\n**Decision**: ");
            append_str(&mut r, decision.as_str());
            append_str(&mut r, "\n**Rationale**: ");
            append_str(&mut r, rationale.as_str());
            append_str(&mut r, alts.as_str());
            r
        },
        MemoryContent::ErrorResolution { error_pattern, root_cause, solution } => {
            let mut r = owned("**Error**: ");
            append_str(&mut r, error_pattern.as_str());
            append_str(&mut r, "\n**Root Cause**: ");
            append_str(&mut r, root_cause.as_str());
            append_str(&mut r, "\n**Solution**: ");
            append_str(&mut r, solution.as_str());
            r
        },
        MemoryContent::CodebaseKnowledge { path, summary, key_concepts } => {
            let concepts = labelled_list_text("\n**Key Concepts**: ", key_concepts);
            let mut r = owned("**Path**: ");
            append_str(&mut r, path.as_str());
            append_str(&mut r, "\n**Summary**: ");
            append_str(&mut r, summary.as_str());
            append_str(&mut r, concepts.as_str());
            r
        },
        MemoryContent::Constraint { description, source, implications } => {
            let impls = labelled_list_text("\n**Implications**: ", implications);
            let mut r = owned("**Constraint**: ");
            append_str(&mut r, description.as_str());
            append_str(&mut r, "\n**Source**: ");
            append_str(&mut r, source.as_str());
            append_str(&mut r, impls.as_str());
            r
        },
        MemoryContent::InteractionLearning { situation, approach, outcome, lesson } => {
            let mut r = owned("**Situation**: ");
            append_str(&mut r, situation.as_str());
            append_str(&mut r, "\n**Approach**: ");
            append_str(&mut r, approach.as_str());
            append_str(&mut r, "\n**Outcome**: ");
            append_str(&mut r, outcome.as_str());
            append_str(&mut r, "\n**Lesson**: ");
            append_str(&mut r, lesson.as_str());
            r
        },
    }
}

/// The token account of an assembled context: tokens taken by its sections and
/// tokens still available.
#[derive(Debug, Clone, Copy, PartialEq, Eq, Structural)]
pub struct TokenAccount {
    /// Tokens taken by the sections added so far.
    pub total_tokens: u32,
    /// Tokens still available.
    pub budget_remaining: u32,
}

impl TokenAccount {
    /// An account with the whole budget available.
    pub fn new(budget: u32) -> (a: Self)
        ensures
            a.total_tokens == 0,
            a.budget_remaining == budget,
    {
        TokenAccount { total_tokens: 0, budget_remaining: budget }
    }

    /// Takes `tokens` from the budget when they fit; reports whether they did.
    pub fn spend(&mut self, tokens: u32) -> (b: bool)
        requires
            old(self).total_tokens + old(self).budget_remaining <= u32::MAX,
        ensures
            b == (tokens <= old(self).budget_remaining),
            b ==> final(self).total_tokens == old(self).total_tokens + tokens
                && final(self).budget_remaining == old(self).budget_remaining - tokens,
            !b ==> *final(self) == *old(self),
    {
        if tokens <= self.budget_remaining {
            self.total_tokens = self.total_tokens + tokens;
            self.budget_remaining = self.budget_remaining - tokens;
            true
        } else {
            false
        }
    }

    /// The account of a context restored under `budget` with `total_tokens` already
    /// taken: what is left of the budget, or nothing.
    pub fn restored(total_tokens: u32, budget: u32) -> (a: Self)
        ensures
            a.total_tokens == total_tokens,
            a.budget_remaining == if budget >= total_tokens { (budget - total_tokens) as u32 } else { 0u32 },
    {
        TokenAccount { total_tokens, budget_remaining: budget.saturating_sub(total_tokens) }
    }
}

/// Spending never changes the sum of taken and available tokens, so a context never
/// takes more than the budget it started with.
pub proof fn lemma_spending_keeps_budget(before: TokenAccount, after: TokenAccount, tokens: u32, spent: bool)
    requires
        before.total_tokens + before.budget_remaining <= u32::MAX,
        spent == (tokens <= before.budget_remaining),
        spent ==> after.total_tokens == before.total_tokens + tokens
            && after.budget_remaining == before.budget_remaining - tokens,
        !spent ==> after == before,
    ensures
        after.total_tokens + after.budget_remaining == before.total_tokens + before.budget_remaining,
        after.total_tokens >= before.total_tokens,
{
}

/// Tokens kept free for the response when a context is assembled.
pub const RESPONSE_RESERVE: u32 = 4096;

/// The tokens an assembled context may take: what is left of the context budget
/// less `RESPONSE_RESERVE`, or none when less is left.
pub fn context_allowance(remaining_tokens: u32) -> (r: u32)
    ensures
        r == if remaining_tokens >= RESPONSE_RESERVE { (remaining_tokens - RESPONSE_RESERVE) as u32 } else { 0u32 },
{
    if remaining_tokens >= RESPONSE_RESERVE {
        remaining_tokens - RESPONSE_RESERVE
    } else {
        0
    }
}

/// The tokens memories may take: half of what the allowance leaves after the
/// `taken` tokens of the sections already in the context.
pub fn memory_budget(allowance: u32, taken: u32) -> (r: u32)
    ensures
        r == (if allowance >= taken { (allowance - taken) as u32 } else { 0u32 }) / 2,
{
    if allowance >= taken {
        (allowance - taken) / 2
    } else {
        0
    }
}

/// The sum of the token counts `s`.
pub open spec fn token_sum(s: Seq<u32>) -> nat
    decreases s.len(),
{
    if s.len() == 0 {
        0
    } else {
        token_sum(s.drop_last()) + s.last() as nat
    }
}

/// How many of the memory sections with token counts `tokens`, in order, enter a
/// context: each goes in while the tokens taken so far and its own stay within the
/// memory budget `budget` and within the `room` the context has left; the first
/// that does not fit ends the run.
pub open spec fn memories_taken(tokens: Seq<u32>, budget: nat, room: nat) -> nat
    decreases tokens.len(),
{
    if tokens.len() == 0 || tokens[0] > budget || tokens[0] > room {
        0
    } else {
        1 + memories_taken(tokens.drop_first(), (budget - tokens[0]) as nat, (room - tokens[0]) as nat)
    }
}

/// Takes memory sections with token counts `tokens`, in order, into the context
/// whose account is `account`, within the memory budget `budget` (see
/// `memories_taken`); returns how many were taken, their tokens spent from the
/// account.
pub fn memory_sections_taken(tokens: &Vec<u32>, budget: u32, account: &mut TokenAccount) -> (n: usize)
    requires
        old(account).total_tokens + old(account).budget_remaining <= u32::MAX,
    ensures
        n == memories_taken(tokens@, budget as nat, old(account).budget_remaining as nat),
        final(account).total_tokens == old(account).total_tokens + token_sum(tokens@.take(n as int)),
        final(account).budget_remaining == old(account).budget_remaining - token_sum(tokens@.take(n as int)),
{
    let ghost room0 = account.budget_remaining as nat;
    let ghost total0 = account.total_tokens as nat;
    let mut used: u32 = 0;
    let mut i: usize = 0;
    assert(tokens@.subrange(0, tokens@.len() as int) =~= tokens@);
    assert(tokens@.take(0) =~= Seq::<u32>::empty());
    while i < tokens.len()
        invariant
            room0 == old(account).budget_remaining,
            total0 == old(account).total_tokens,
            i <= tokens@.len(),
            used <= budget,
            used as nat == token_sum(tokens@.take(i as int)),
            account.total_tokens == total0 + used,
            account.budget_remaining == room0 - used,
            used <= room0,
            total0 + room0 <= u32::MAX,
            memories_taken(tokens@, budget as nat, room0) == i + memories_taken(
                tokens@.subrange(i as int, tokens@.len() as int),
                (budget - used) as nat,
                (room0 - used) as nat,
            ),
        decreases tokens.len() - i,
    {
        let t = tokens[i];
        let ghost rest = tokens@.subrange(i as int, tokens@.len() as int);
        assert(rest[0] == t);
        if t > budget - used {
            return i;
        }
        let spent = account.spend(t);
        if !spent {
            return i;
        }
        proof {
            assert(rest.drop_first() =~= tokens@.subrange(i + 1, tokens@.len() as int));
            assert(tokens@.take(i + 1).drop_last() =~= tokens@.take(i as int));
        }
        used = used + t;
        i = i + 1;
    }
    proof {
        assert(tokens@.subrange(i as int, tokens@.len() as int).len() == 0);
    }
    i
}

/// Somewhere in `s` two stars are followed by `c`.
pub open spec fn stars_then(s: Seq<char>, c: char) -> bool {
    exists|i: int| 0 <= i && i + 2 < s.len() && s[i] == '*' && s[i + 1] == '*' && #[trigger] s[i + 2] == c
}

/// From index `i` on, two stars are followed by `c` somewhere in `s`.
spec fn stars_then_from(s: Seq<char>, c: char, i: int) -> bool
    decreases s.len() - i,
{
    if i < 0 || i + 2 >= s.len() {
        false
    } else {
        (s[i] == '*' && s[i + 1] == '*' && s[i + 2] == c) || stars_then_from(s, c, i + 1)
    }
}

proof fn lemma_stars_then_from(s: Seq<char>, c: char, i: int)
    requires
        0 <= i,
        !stars_then_from(s, c, i),
    ensures
        forall|k: int| i <= k && k + 2 < s.len() ==> !(s[k] == '*' && s[k + 1] == '*' && #[trigger] s[k + 2] == c),
    decreases s.len() - i,
{
    if i + 2 < s.len() {
        lemma_stars_then_from(s, c, i + 1);
    }
}

/// A text without `**` has no two stars followed by anything.
proof fn lemma_field_stars(f: Seq<char>, c: char)
    requires
        !seq_contains(f, "**"@),
    ensures
        !stars_then(f, c),
{
    reveal_strlit("**");
    if stars_then(f, c) {
        let i = choose|i: int| 0 <= i && i + 2 < f.len() && f[i] == '*' && f[i + 1] == '*' && #[trigger] f[i + 2] == c;
        assert(f.subrange(i, i + 2) =~= "**"@);
        assert(crate::text::occurs_at(f, "**"@, i));
    }
}

/// Two texts joined where the first ends with a space or the second starts a new
/// line: no two stars followed by `c` appear across the join.
proof fn lemma_join_stars(a: Seq<char>, b: Seq<char>, c: char)
    requires
        !stars_then(a, c),
        !stars_then(b, c),
        c != '\n',
        (a.len() > 0 && a.last() == ' ') || (b.len() > 0 && b[0] == '\n'),
    ensures
        !stars_then(a + b, c),
{
    let s = a + b;
    if stars_then(s, c) {
        let i = choose|i: int| 0 <= i && i + 2 < s.len() && s[i] == '*' && s[i + 1] == '*' && #[trigger] s[i + 2] == c;
        if i + 2 < a.len() {
            assert(a[i + 2] == c);
        } else if i >= a.len() {
            let j = i - a.len();
            assert(b[j + 2] == c);
        }
    }
}

/// A text with no two stars followed by `n[2]` does not contain `n` when `n`
/// starts with two stars.
proof fn lemma_no_label(s: Seq<char>, n: Seq<char>)
    requires
        n.len() >= 3,
        n[0] == '*',
        n[1] == '*',
        !stars_then(s, n[2]),
    ensures
        !seq_contains(s, n),
{
    if seq_contains(s, n) {
        let i = choose|i: int| crate::text::occurs_at(s, n, i);
        assert(s.subrange(i, i + n.len())[0] == n[0]);
        assert(s.subrange(i, i + n.len())[1] == n[1]);
        assert(s.subrange(i, i + n.len())[2] == n[2]);
        assert(s[i + 2] == n[2]);
    }
}

/// A text in which the search from its start finds no two stars followed by `c`
/// has none anywhere.
proof fn lemma_label(l: Seq<char>, c: char)
    requires
        !stars_then_from(l, c, 0),
    ensures
        !stars_then(l, c),
{
    lemma_stars_then_from(l, c, 0);
}

/// In the text of a decision, a codebase note or a constraint whose fields hold no
/// `**`, the line of its list (alternatives, key concepts, implications) ends the
/// text when the list is not empty, and its label appears nowhere when the list is
/// empty.
pub proof fn lemma_list_label_iff_nonempty(content: MemoryContent)
    ensures
        content matches MemoryContent::Decision { context, decision, rationale, alternatives_considered }
            ==> (!seq_contains(context@, "**"@) && !seq_contains(decision@, "**"@)
            && !seq_contains(rationale@, "**"@) ==> ({
            let t = memory_text(content);
            let line = "\n**Alternatives**: "@ + join_seq(views_of(alternatives_considered@), ", "@);
            &&& alternatives_considered@.len() > 0 ==> t.len() >= line.len()
                && t.subrange(t.len() - line.len(), t.len() as int) == line
            &&& alternatives_considered@.len() == 0 ==> !seq_contains(t, "**Alternatives**"@)
        })),
        content matches MemoryContent::CodebaseKnowledge { path, summary, key_concepts }
            ==> (!seq_contains(path@, "**"@) && !seq_contains(summary@, "**"@) ==> ({
            let t = memory_text(content);
            let line = "\n**Key Concepts**: "@ + join_seq(views_of(key_concepts@), ", "@);
            &&& key_concepts@.len() > 0 ==> t.len() >= line.len()
                && t.subrange(t.len() - line.len(), t.len() as int) == line
            &&& key_concepts@.len() == 0 ==> !seq_contains(t, "**Key Concepts**"@)
        })),
        content matches MemoryContent::Constraint { description, source, implications }
            ==> (!seq_contains(description@, "**"@) && !seq_contains(source@, "**"@) ==> ({
            let t = memory_text(content);
            let line = "\n**Implications**: "@ + join_seq(views_of(implications@), ", "@);
            &&& implications@.len() > 0 ==> t.len() >= line.len()
                && t.subrange(t.len() - line.len(), t.len() as int) == line
            &&& implications@.len() == 0 ==> !seq_contains(t, "**Implications**"@)
        })),
{
    match content {
        MemoryContent::Decision { context, decision, rationale, alternatives_considered } => {
            let head = "**Context**: "@ + context@ + "\n**Decision**: "@ + decision@
                + "\n**Rationale**: "@ + rationale@;
            let line = "\n**Alternatives**: "@ + join_seq(views_of(alternatives_considered@), ", "@);
            if alternatives_considered@.len() > 0 {
                assert((head + line).subrange(head.len() as int, (head + line).len() as int) =~= line);
            } else if !seq_contains(context@, "**"@) && !seq_contains(decision@, "**"@)
                && !seq_contains(rationale@, "**"@) {
                reveal_strlit("**Context**: ");
                reveal_strlit("\n**Decision**: ");
                reveal_strlit("\n**Rationale**: ");
                reveal_strlit("**Alternatives**");
                reveal_with_fuel(stars_then_from, 20);
                let c = 'A';
                lemma_label("**Context**: "@, c);
                lemma_label("\n**Decision**: "@, c);
                lemma_label("\n**Rationale**: "@, c);
                lemma_field_stars(context@, c);
                lemma_field_stars(decision@, c);
                lemma_field_stars(rationale@, c);
                let a1 = "**Context**: "@ + context@;
                lemma_join_stars("**Context**: "@, context@, c);
                lemma_join_stars(a1, "\n**Decision**: "@, c);
                let a2 = a1 + "\n**Decision**: "@;
                lemma_join_stars(a2, decision@, c);
                let a3 = a2 + decision@;
                lemma_join_stars(a3, "\n**Rationale**: "@, c);
                let a4 = a3 + "\n**Rationale**: "@;
                lemma_join_stars(a4, rationale@, c);
                assert(memory_text(content) =~= a4 + rationale@);
                lemma_no_label(a4 + rationale@, "**Alternatives**"@);
            }
        },
        MemoryContent::CodebaseKnowledge { path, summary, key_concepts } => {
            let head = "**Path**: "@ + path@ + "\n**Summary**: "@ + summary@;
            let line = "\n**Key Concepts**: "@ + join_seq(views_of(key_concepts@), ", "@);
            if key_concepts@.len() > 0 {
                assert((head + line).subrange(head.len() as int, (head + line).len() as int) =~= line);
            } else if !seq_contains(path@, "**"@) && !seq_contains(summary@, "**"@) {
                reveal_strlit("**Path**: ");
                reveal_strlit("\n**Summary**: ");
                reveal_strlit("**Key Concepts**");
                reveal_with_fuel(stars_then_from, 20);
                let c = 'K';
                lemma_label("**Path**: "@, c);
                lemma_label("\n**Summary**: "@, c);
                lemma_field_stars(path@, c);
                lemma_field_stars(summary@, c);
                let a1 = "**Path**: "@ + path@;
                lemma_join_stars("**Path**: "@, path@, c);
                lemma_join_stars(a1, "\n**Summary**: "@, c);
                let a2 = a1 + "\n**Summary**: "@;
                lemma_join_stars(a2, summary@, c);
                assert(memory_text(content) =~= a2 + summary@);
                lemma_no_label(a2 + summary@, "**Key Concepts**"@);
            }
        },
        MemoryContent::Constraint { description, source, implications } => {
            let head = "**Constraint**: "@ + description@ + "\n**Source**: "@ + source@;
            let line = "\n**Implications**: "@ + join_seq(views_of(implications@), ", "@);
            if implications@.len() > 0 {
                assert((head + line).subrange(head.len() as int, (head + line).len() as int) =~= line);
            } else if !seq_contains(description@, "**"@) && !seq_contains(source@, "**"@) {
                reveal_strlit("**Constraint**: ");
                reveal_strlit("\n**Source**: ");
                reveal_strlit("**Implications**");
                reveal_with_fuel(stars_then_from, 20);
                let c = 'I';
                lemma_label("**Constraint**: "@, c);
                lemma_label("\n**Source**: "@, c);
                lemma_field_stars(description@, c);
                lemma_field_stars(source@, c);
                let a1 = "**Constraint**: "@ + description@;
                lemma_join_stars("**Constraint**: "@, description@, c);
                lemma_join_stars(a1, "\n**Source**: "@, c);
                let a2 = a1 + "\n**Source**: "@;
                lemma_join_stars(a2, source@, c);
                assert(memory_text(content) =~= a2 + source@);
                lemma_no_label(a2 + source@, "**Implications**"@);
            }
        },
        _ => {},
    }
}

} // verus!
