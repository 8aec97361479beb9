//! The outcome of checking which stored consequences and facts bear on what
//! the player just did, and the extraction of the JSON answer from a model's
//! reply.

use vstd::prelude::*;
use crate::ids::{uuid_text, ConsequenceId, EntityId, FactId};
use crate::text::{chars_of, joined, opt_view, push_joined, push_str, str_eq, strings_view};

verus! {

/// What a relevance check found.
#[derive(Debug, Clone)]
pub struct RelevanceResult {
    /// Consequences that should fire now.
    pub triggered_consequences: Vec<ConsequenceId>,
    /// Facts worth bringing back into context.
    pub relevant_facts: Vec<FactId>,
    /// Entities that matter though nobody named them.
    pub relevant_entities: Vec<EntityId>,
    /// The model's own explanation, kept for debugging.
    pub explanation: Option<String>,
}

impl RelevanceResult {
    /// Some consequence fires.
    pub open spec fn spec_has_triggered(&self) -> bool {
        self.triggered_consequences@.len() > 0
    }

    /// Some fact or entity bears on the action.
    pub open spec fn spec_has_context(&self) -> bool {
        self.relevant_facts@.len() > 0 || self.relevant_entities@.len() > 0
    }

    /// Nothing was found at all.
    pub open spec fn spec_is_empty(&self) -> bool {
        self.triggered_consequences@.len() == 0 && self.relevant_facts@.len() == 0
            && self.relevant_entities@.len() == 0
    }

    pub fn has_triggered_consequences(&self) -> (r: bool)
        ensures
            r == self.spec_has_triggered(),
    {
        self.triggered_consequences.len() > 0
    }

    pub fn has_relevant_context(&self) -> (r: bool)
        ensures
            r == self.spec_has_context(),
    {
        self.relevant_facts.len() > 0 || self.relevant_entities.len() > 0
    }

    /// Nothing found; an explanation alone does not count.
    pub fn is_empty(&self) -> (r: bool)
        ensures
            r == self.spec_is_empty(),
    {
        self.triggered_consequences.len() == 0 && self.relevant_facts.len() == 0
            && self.relevant_entities.len() == 0
    }
}

/// A result is empty exactly when it triggers nothing and brings no context.
pub proof fn law_empty_means_nothing_found(r: RelevanceResult)
    ensures
        r.spec_is_empty() <==> (!r.spec_has_triggered() && !r.spec_has_context()),
{
}

/// Unicode White_Space, the characters `char::is_whitespace` accepts.
pub open spec fn is_white_space(c: char) -> bool {
    ||| '\u{9}' <= c <= '\u{d}'
    ||| c == ' '
    ||| c == '\u{85}'
    ||| c == '\u{a0}'
    ||| c == '\u{1680}'
    ||| '\u{2000}' <= c <= '\u{200a}'
    ||| c == '\u{2028}'
    ||| c == '\u{2029}'
    ||| c == '\u{202f}'
    ||| c == '\u{205f}'
    ||| c == '\u{3000}'
}

/// Whether a character has the Unicode White_Space property, as
/// `char::is_whitespace` answers.
pub fn is_whitespace(c: char) -> (r: bool)
    ensures
        r == is_white_space(c),
{
    let u = c as u32;
    (0x9 <= u && u <= 0xd) || u == 0x20 || u == 0x85 || u == 0xa0 || u == 0x1680
        || (0x2000 <= u && u <= 0x200a) || u == 0x2028 || u == 0x2029 || u == 0x202f || u == 0x205f
        || u == 0x3000
}

/// End of the leading white space of `s`, looking from `i` on.
pub open spec fn leading_end(s: Seq<char>, i: int) -> int
    decreases s.len() - i,
{
    if 0 <= i < s.len() && is_white_space(s[i]) { leading_end(s, i + 1) } else { i }
}

/// Start of the trailing white space of `s[..j]`, not going below `lo`.
pub open spec fn trailing_start(s: Seq<char>, j: int, lo: int) -> int
    decreases j - lo,
{
    if lo < j && j <= s.len() && is_white_space(s[j - 1]) { trailing_start(s, j - 1, lo) } else { j }
}

/// `s` without leading and trailing white space, as `str::trim` gives it.
pub open spec fn trimmed(s: Seq<char>) -> Seq<char> {
    let a = leading_end(s, 0);
    s.subrange(a, trailing_start(s, s.len() as int, a))
}

/// First position at or after `i` where `p` occurs in `s`.
pub open spec fn find_from(s: Seq<char>, p: Seq<char>, i: int) -> Option<int>
    decreases s.len() + 1 - i,
{
    if i < 0 || i + p.len() > s.len() {
        None
    } else if s.subrange(i, i + p.len()) == p {
        Some(i)
    } else {
        find_from(s, p, i + 1)
    }
}

/// First position where `p` occurs in `s`, as `str::find` gives it.
pub open spec fn find(s: Seq<char>, p: Seq<char>) -> Option<int> {
    find_from(s, p, 0)
}

/// The text between the first `open` marker and the next closing fence,
/// trimmed; none when either is missing.
pub open spec fn fenced(t: Seq<char>, open: Seq<char>) -> Option<Seq<char>> {
    match find(t, open) {
        Some(start) => {
            let rest = t.subrange(start + open.len(), t.len() as int);
            match find(rest, "```"@) {
                Some(end) => Some(trimmed(rest.subrange(0, end))),
                None => None,
            }
        },
        None => None,
    }
}

/// The JSON in a model's reply: the trimmed reply, or the trimmed contents of
/// its first "```json" block, or of its first "```" block.
pub open spec fn spec_extract_json(text: Seq<char>) -> Seq<char> {
    let t = trimmed(text);
    match fenced(t, "```json"@) {
        Some(x) => x,
        None => match fenced(t, "```"@) {
            Some(x) => x,
            None => t,
        },
    }
}


/// Whether `p` occurs in `v` at `i`.
fn occurs_at(v: &Vec<char>, i: usize, hi: usize, p: &Vec<char>) -> (r: bool)
    requires
        i + p@.len() <= hi <= v@.len(),
    ensures
        r == (v@.subrange(i as int, i + p@.len()) == p@),
        p@.len() == 0 ==> r,
{
    let mut k: usize = 0;
    while k < p.len()
        invariant
            i + p@.len() <= hi <= v@.len(),
            0 <= k <= p@.len(),
            forall|j: int| 0 <= j < k ==> v@[i + j] == p@[j],
        decreases p@.len() - k,
    {
        if v[i + k] != p[k] {
            assert(v@.subrange(i as int, i + p@.len())[k as int] != p@[k as int]);
            return false;
        }
        k = k + 1;
    }
    assert(v@.subrange(i as int, i + p@.len()) =~= p@);
    true
}

/// First occurrence of `p` in `v[lo..hi]`, as a position in `v`.
pub(crate) fn find_in(v: &Vec<char>, lo: usize, hi: usize, p: &Vec<char>) -> (r: Option<usize>)
    requires
        lo <= hi <= v@.len(),
    ensures
        match r {
            Some(k) => lo <= k && k + p@.len() <= hi && find(v@.subrange(lo as int, hi as int), p@) == Some(k - lo),
            None => find(v@.subrange(lo as int, hi as int), p@) is None,
        },
{
    let ghost s = v@.subrange(lo as int, hi as int);
    let mut i: usize = lo;
    while i <= hi && p.len() <= hi - i
        invariant
            lo <= i <= hi + 1,
            lo <= hi <= v@.len(),
            s == v@.subrange(lo as int, hi as int),
            find(s, p@) == find_from(s, p@, i - lo),
        decreases hi + 1 - i,
    {
        if occurs_at(v, i, hi, p) {
            assert(s.subrange(i - lo, i - lo + p@.len()) =~= v@.subrange(i as int, i + p@.len()));
            return Some(i);
        }
        assert(s.subrange(i - lo, i - lo + p@.len()) =~= v@.subrange(i as int, i + p@.len()));
        i = i + 1;
    }
    None
}

/// Bounds of `v[lo..hi]` without its leading and trailing white space.
fn trim_bounds(v: &Vec<char>, lo: usize, hi: usize) -> (r: (usize, usize))
    requires
        lo <= hi <= v@.len(),
    ensures
        lo <= r.0 <= r.1 <= hi,
        v@.subrange(r.0 as int, r.1 as int) == trimmed(v@.subrange(lo as int, hi as int)),
{
    let ghost s = v@.subrange(lo as int, hi as int);
    let mut a: usize = lo;
    while a < hi && is_whitespace(v[a])
        invariant
            lo <= a <= hi <= v@.len(),
            s == v@.subrange(lo as int, hi as int),
            leading_end(s, 0) == leading_end(s, a - lo),
        decreases hi - a,
    {
        a = a + 1;
    }
    let mut b: usize = hi;
    while b > a && is_whitespace(v[b - 1])
        invariant
            lo <= a <= b <= hi <= v@.len(),
            s == v@.subrange(lo as int, hi as int),
            leading_end(s, 0) == a - lo,
            trailing_start(s, s.len() as int, a - lo) == trailing_start(s, b - lo, a - lo),
        decreases b - a,
    {
        b = b - 1;
    }
    assert(v@.subrange(a as int, b as int) =~= s.subrange(a - lo, b - lo));
    (a, b)
}

proof fn lemma_leading_end(s: Seq<char>, i: int)
    requires
        0 <= i <= s.len(),
    ensures
        i <= leading_end(s, i) <= s.len(),
        leading_end(s, i) < s.len() ==> !is_white_space(s[leading_end(s, i)]),
    decreases s.len() - i,
{
    if i < s.len() && is_white_space(s[i]) {
        lemma_leading_end(s, i + 1);
    }
}

proof fn lemma_trailing_start(s: Seq<char>, j: int, lo: int)
    requires
        0 <= lo <= j <= s.len(),
    ensures
        lo <= trailing_start(s, j, lo) <= j,
        trailing_start(s, j, lo) > lo ==> !is_white_space(s[trailing_start(s, j, lo) - 1]),
    decreases j - lo,
{
    if lo < j && is_white_space(s[j - 1]) {
        lemma_trailing_start(s, j - 1, lo);
    }
}

/// Trimming twice trims no more than trimming once.
pub proof fn law_trim_is_idempotent(s: Seq<char>)
    ensures
        trimmed(trimmed(s)) == trimmed(s),
{
    let a = leading_end(s, 0);
    lemma_leading_end(s, 0);
    let b = trailing_start(s, s.len() as int, a);
    lemma_trailing_start(s, s.len() as int, a);
    let u = trimmed(s);
    assert(u == s.subrange(a, b));
    if u.len() == 0 {
        assert(leading_end(u, 0) == 0);
        assert(trimmed(u) =~= u);
    } else {
        assert(u[0] == s[a]);
        assert(leading_end(u, 0) == 0);
        assert(u[u.len() - 1] == s[b - 1]);
        assert(trailing_start(u, u.len() as int, 0) == u.len());
        assert(trimmed(u) =~= u);
    }
}

/// What is pulled out of a reply has no white space at either end left to
/// trim.
pub proof fn law_extracted_json_is_trimmed(text: Seq<char>)
    ensures
        trimmed(spec_extract_json(text)) == spec_extract_json(text),
{
    let t = trimmed(text);
    law_trim_is_idempotent(text);
    match find(t, "```json"@) {
        Some(start) => {
            let rest = t.subrange(start + "```json"@.len(), t.len() as int);
            match find(rest, "```"@) {
                Some(end) => law_trim_is_idempotent(rest.subrange(0, end)),
                None => {},
            }
        },
        None => {},
    }
    match find(t, "```"@) {
        Some(start) => {
            let rest = t.subrange(start + "```"@.len(), t.len() as int);
            match find(rest, "```"@) {
                Some(end) => law_trim_is_idempotent(rest.subrange(0, end)),
                None => {},
            }
        },
        None => {},
    }
}

/// A found occurrence lies inside the text and matches the pattern.
proof fn lemma_find_from_found(s: Seq<char>, p: Seq<char>, i: int)
    ensures
        find_from(s, p, i) matches Some(k) ==> i <= k && k + p.len() <= s.len() && s.subrange(k, k + p.len()) == p,
    decreases s.len() + 1 - i,
{
    if !(i < 0 || i + p.len() > s.len()) && s.subrange(i, i + p.len()) != p {
        lemma_find_from_found(s, p, i + 1);
    }
}

/// An occurrence at `k`, at or after `i`, is found (at `k` or before).
proof fn lemma_find_from_misses_nothing(s: Seq<char>, p: Seq<char>, i: int, k: int)
    requires
        0 <= i <= k,
        k + p.len() <= s.len(),
        s.subrange(k, k + p.len()) == p,
    ensures
        find_from(s, p, i) is Some,
    decreases k - i,
{
    if s.subrange(i, i + p.len()) != p {
        lemma_find_from_misses_nothing(s, p, i + 1, k);
    }
}

/// Trimming keeps a run of the text.
proof fn lemma_trimmed_bounds(s: Seq<char>)
    ensures
        0 <= leading_end(s, 0) <= trailing_start(s, s.len() as int, leading_end(s, 0)) <= s.len(),
{
    lemma_leading_end(s, 0);
    lemma_trailing_start(s, s.len() as int, leading_end(s, 0));
}

/// The contents of a fenced block are a run of the text.
proof fn lemma_fenced_is_a_run(t: Seq<char>, open: Seq<char>)
    ensures
        fenced(t, open) matches Some(x) ==> exists|i: int, j: int| 0 <= i <= j <= t.len() && x == t.subrange(i, j),
{
    lemma_find_from_found(t, open, 0);
    match find(t, open) {
        Some(start) => {
            let rest = t.subrange(start + open.len(), t.len() as int);
            lemma_find_from_found(rest, "```"@, 0);
            match find(rest, "```"@) {
                Some(end) => {
                    let inner = rest.subrange(0, end);
                    lemma_trimmed_bounds(inner);
                    let a = leading_end(inner, 0);
                    let b = trailing_start(inner, inner.len() as int, a);
                    let i = start + open.len() + a;
                    let j = start + open.len() + b;
                    assert(trimmed(inner) =~= t.subrange(i, j));
                },
                None => {},
            }
        },
        None => {},
    }
}

/// What is pulled out of a reply is a run of the reply's own text.
pub proof fn law_extracted_json_is_part_of_the_reply(text: Seq<char>)
    ensures
        exists|i: int, j: int| 0 <= i <= j <= text.len() && spec_extract_json(text) == text.subrange(i, j),
{
    let t = trimmed(text);
    lemma_trimmed_bounds(text);
    let a = leading_end(text, 0);
    let b = trailing_start(text, text.len() as int, a);
    assert(t == text.subrange(a, b));
    lemma_fenced_is_a_run(t, "```json"@);
    lemma_fenced_is_a_run(t, "```"@);
    match fenced(t, "```json"@) {
        Some(x) => {
            let (i, j) = choose|i: int, j: int| 0 <= i <= j <= t.len() && x == t.subrange(i, j);
            assert(x =~= text.subrange(a + i, a + j));
        },
        None => match fenced(t, "```"@) {
            Some(x) => {
                let (i, j) = choose|i: int, j: int| 0 <= i <= j <= t.len() && x == t.subrange(i, j);
                assert(x =~= text.subrange(a + i, a + j));
            },
            None => {
                assert(t =~= text.subrange(a, b));
            },
        },
    }
}

/// A reply without any code fence is taken whole, trimmed; a reply with a
/// "```json" block closed by a later fence gives that block's trimmed
/// contents.
pub proof fn law_extract_json_fences(text: Seq<char>)
    ensures
        find(trimmed(text), "```"@) is None ==> spec_extract_json(text) == trimmed(text),
        fenced(trimmed(text), "```json"@) matches Some(x) ==> spec_extract_json(text) == x,
{
    let t = trimmed(text);
    reveal_strlit("```json");
    reveal_strlit("```");
    lemma_find_from_found(t, "```json"@, 0);
    if find(t, "```json"@) is Some {
        let k = find(t, "```json"@)->0;
        assert(t.subrange(k, k + 3) =~= "```"@);
        lemma_find_from_misses_nothing(t, "```"@, 0, k);
    }
}

/// Whether `p` occurs in `s`, as `str::contains` answers it.
pub fn contains_text(s: &str, p: &str) -> (r: bool)
    ensures
        r == find(s@, p@) is Some,
{
    let v = chars_of(s);
    let q = chars_of(p);
    assert(v@.subrange(0, v@.len() as int) =~= v@);
    find_in(&v, 0, v.len(), &q).is_some()
}

/// Pulls the JSON out of a model's reply, which may wrap it in a Markdown
/// code block.
pub fn extract_json(text: &str) -> (r: &str)
    ensures
        r@ == spec_extract_json(text@),
{
    let v = chars_of(text);
    let (a, b) = trim_bounds(&v, 0, v.len());
    let ghost t = v@.subrange(a as int, b as int);
    assert(v@.subrange(0, v@.len() as int) =~= v@);
    let mut json_open: Vec<char> = Vec::new();
    json_open.push('`'); json_open.push('`'); json_open.push('`');
    json_open.push('j'); json_open.push('s'); json_open.push('o'); json_open.push('n');
    let mut fence: Vec<char> = Vec::new();
    fence.push('`'); fence.push('`'); fence.push('`');
    proof {
        reveal_strlit("```json");
        reveal_strlit("```");
        assert(json_open@ =~= "```json"@);
        assert(fence@ =~= "```"@);
    }
    match fenced_in(&v, a, b, &json_open, &fence) {
        Some((x, y)) => return text.substring_char(x, y),
        None => {},
    }
    match fenced_in(&v, a, b, &fence, &fence) {
        Some((x, y)) => return text.substring_char(x, y),
        None => {},
    }
    text.substring_char(a, b)
}

/// Bounds, in `v`, of the trimmed contents of the first block in `v[a..b]`
/// opened by `open` and closed by `fence`.
fn fenced_in(v: &Vec<char>, a: usize, b: usize, open: &Vec<char>, fence: &Vec<char>) -> (r: Option<(usize, usize)>)
    requires
        a <= b <= v@.len(),
        fence@ == "```"@,
    ensures
        match r {
            Some((x, y)) => x <= y <= v@.len()
                && fenced(v@.subrange(a as int, b as int), open@) == Some(v@.subrange(x as int, y as int)),
            None => fenced(v@.subrange(a as int, b as int), open@) is None,
        },
{
    let ghost t = v@.subrange(a as int, b as int);
    match find_in(v, a, b, open) {
        Some(start) => {
            let cs = start + open.len();
            let ghost rest = t.subrange(cs - a, t.len() as int);
            assert(rest =~= v@.subrange(cs as int, b as int));
            match find_in(v, cs, b, fence) {
                Some(end) => {
                    let (x, y) = trim_bounds(v, cs, end);
                    assert(rest.subrange(0, end - cs) =~= v@.subrange(cs as int, end as int));
                    Some((x, y))
                },
                None => None,
            }
        },
        None => None,
    }
}

/// Position of the first pending consequence at or after `i` whose id is
/// written `text`.
pub open spec fn consequence_position_from(pending: Seq<ConsequenceId>, text: Seq<char>, i: int) -> Option<int>
    decreases pending.len() - i,
{
    if i < 0 || i >= pending.len() {
        None
    } else if uuid_text(pending[i].0) == text {
        Some(i)
    } else {
        consequence_position_from(pending, text, i + 1)
    }
}

/// The pending consequences the model named, in the order it named them;
/// ids that match no pending consequence are dropped.
pub open spec fn named_consequences(named: Seq<Seq<char>>, pending: Seq<ConsequenceId>) -> Seq<ConsequenceId>
    decreases named.len(),
{
    if named.len() == 0 {
        Seq::empty()
    } else {
        let before = named_consequences(named.drop_last(), pending);
        match consequence_position_from(pending, named.last(), 0) {
            Some(i) => before.push(pending[i]),
            None => before,
        }
    }
}

/// The entities found for the names the model gave, in order, each once.
pub open spec fn found_once(found: Seq<Option<EntityId>>) -> Seq<EntityId>
    decreases found.len(),
{
    if found.len() == 0 {
        Seq::empty()
    } else {
        let before = found_once(found.drop_last());
        match found.last() {
            Some(id) => if before.contains(id) { before } else { before.push(id) },
            None => before,
        }
    }
}

fn find_consequence(pending: &[ConsequenceId], text: &str) -> (r: Option<ConsequenceId>)
    ensures
        r == (match consequence_position_from(pending@, text@, 0) {
            Some(i) => Some(pending@[i]),
            None => None::<ConsequenceId>,
        }),
{
    let mut i: usize = 0;
    while i < pending.len()
        invariant
            0 <= i <= pending@.len(),
            consequence_position_from(pending@, text@, 0) == consequence_position_from(pending@, text@, i as int),
        decreases pending@.len() - i,
    {
        let written = pending[i].to_text();
        if str_eq(written.as_str(), text) {
            return Some(pending[i]);
        }
        i = i + 1;
    }
    None
}

/// What a relevance check found, from the model's answer: the ids of the
/// consequences it says fire (matched against the pending ones by their
/// written form), the entity found for each name it gave (`None` where no
/// entity has that name), and its explanation.
pub fn relevance_from_reply(
    triggered: &[String],
    found_entities: &[Option<EntityId>],
    explanation: Option<String>,
    pending: &[ConsequenceId],
) -> (r: RelevanceResult)
    ensures
        r.triggered_consequences@ == named_consequences(strings_view(triggered@), pending@),
        r.relevant_entities@ == found_once(found_entities@),
        r.relevant_facts@.len() == 0,
        r.explanation == explanation,
{
    let mut consequences: Vec<ConsequenceId> = Vec::new();
    let mut i: usize = 0;
    while i < triggered.len()
        invariant
            0 <= i <= triggered@.len(),
            consequences@ == named_consequences(strings_view(triggered@).take(i as int), pending@),
        decreases triggered@.len() - i,
    {
        proof {
            let v = strings_view(triggered@);
            assert(v.take(i + 1).drop_last() =~= v.take(i as int));
            assert(v.take(i + 1).last() == triggered@[i as int]@);
        }
        match find_consequence(pending, triggered[i].as_str()) {
            Some(id) => consequences.push(id),
            None => {},
        }
        i = i + 1;
    }
    assert(strings_view(triggered@).take(triggered@.len() as int) =~= strings_view(triggered@));
    let mut entities: Vec<EntityId> = Vec::new();
    let mut j: usize = 0;
    while j < found_entities.len()
        invariant
            0 <= j <= found_entities@.len(),
            entities@ == found_once(found_entities@.take(j as int)),
        decreases found_entities@.len() - j,
    {
        proof {
            assert(found_entities@.take(j + 1).drop_last() =~= found_entities@.take(j as int));
        }
        match found_entities[j] {
            Some(id) => {
                let mut k: usize = 0;
                let mut seen = false;
                while k < entities.len()
                    invariant
                        0 <= k <= entities@.len(),
                        seen == (exists|m: int| 0 <= m < k && entities@[m] == id),
                    decreases entities@.len() - k,
                {
                    if entities[k] == id {
                        seen = true;
                    }
                    k = k + 1;
                }
                if !seen {
                    entities.push(id);
                }
            },
            None => {},
        }
        j = j + 1;
    }
    assert(found_entities@.take(found_entities@.len() as int) =~= found_entities@);
    RelevanceResult { triggered_consequences: consequences, relevant_facts: Vec::new(), relevant_entities: entities, explanation }
}

/// The start of the question put to the model about implied state
/// changes, up to the narrative.
pub const INFERENCE_OPENING: &'static str = "Analyze this D&D narrative for implied state changes that weren't explicitly recorded.\n\n## Narrative\n\"";

/// What comes between the narrative and the known entities.
pub const INFERENCE_ENTITIES: &'static str = "\"\n\n## Known Entities\n";

/// The instructions that end the question.
pub const INFERENCE_INSTRUCTIONS: &'static str = "\n\n## Instructions\nLook for IMPLIED state changes in the narrative:\n- Disposition: attitude changes (smiles, glares, thanks warmly, becomes hostile)\n- Location: movement (storms off, follows, arrives at)\n- Status: condition changes (injured, recovered, disappeared)\n- Relationship: connection changes (befriends, betrays, owes a debt to)\n\nOnly report changes with high confidence (>0.7). Require explicit evidence in the text.\n\nRespond with ONLY a JSON object (no markdown):\n{\n  \"inferred_changes\": [\n    {\n      \"entity_name\": \"Mira\",\n      \"state_type\": \"disposition\",\n      \"new_value\": \"friendly\",\n      \"evidence\": \"She smiles warmly and thanks you\",\n      \"confidence\": 0.9,\n      \"target_entity\": null\n    }\n  ]\n}\n\nIf no state changes are implied, return empty array: {\"inferred_changes\": []}";

/// The question about implied state changes, or nothing to ask: no question
/// is put for a narrative under 20 bytes or when no entity is known.
pub open spec fn inference_prompt(narrative: Seq<char>, narrative_bytes: nat, known_entities: Seq<String>) -> Option<Seq<char>> {
    if narrative_bytes < 20 || known_entities.len() == 0 {
        None
    } else {
        Some(INFERENCE_OPENING@ + narrative + INFERENCE_ENTITIES@ + joined(strings_view(known_entities), ", "@)
            + INFERENCE_INSTRUCTIONS@)
    }
}

/// The question to put to the model about the state changes a narrative
/// implies for the known entities; `None` when there is nothing to ask.
pub fn state_inference_prompt(narrative: &str, known_entities: &[String]) -> (r: Option<String>)
    ensures
        opt_view(r) == inference_prompt(narrative@, narrative.len() as nat, known_entities@),
{
    if narrative.len() < 20 || known_entities.len() == 0 {
        return None;
    }
    let mut s = String::new();
    push_str(&mut s, INFERENCE_OPENING);
    push_str(&mut s, narrative);
    push_str(&mut s, INFERENCE_ENTITIES);
    push_joined(&mut s, known_entities, ", ");
    push_str(&mut s, INFERENCE_INSTRUCTIONS);
    Some(s)
}

impl Default for RelevanceResult {
    /// Nothing found.
    fn default() -> (r: Self)
        ensures
            r.triggered_consequences@.len() == 0,
            r.relevant_facts@.len() == 0,
            r.relevant_entities@.len() == 0,
            r.explanation is None,
    {
        RelevanceResult {
            triggered_consequences: Vec::new(),
            relevant_facts: Vec::new(),
            relevant_entities: Vec::new(),
            explanation: None,
        }
    }
}

} // verus!
