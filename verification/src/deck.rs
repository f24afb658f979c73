//! The deck engine: the ordered cards of one topic, the study order, the
//! recorded responses, progress, and the data handed out for persistence.
use vstd::prelude::*;
use vstd::string::StringExecFns;
use rand::seq::SliceRandom;

use crate::max_usize;
use crate::min_usize;
use crate::text::dec_of;
use crate::text::dec_string;
use crate::text::normalize_lines;
use crate::text::read_nonempty_lines;
use crate::text::clean_line;
use crate::text::law_normalize_clean;

verus! {

/// The identity study order over a deck of `n` cards.
pub open spec fn ident_order(n: nat) -> Seq<usize> {
    Seq::new(n, |i: int| i as usize)
}

/// A study order over `n` cards: some arrangement of the indices `0..n`,
/// each exactly once.
pub open spec fn is_perm(s: Seq<usize>, n: nat) -> bool {
    s.to_multiset() == ident_order(n).to_multiset()
}

/// A study order over `n` cards has length `n` and every entry below `n`.
pub proof fn lemma_perm_range(s: Seq<usize>, n: nat)
    requires
        is_perm(s, n),
        n <= usize::MAX,
    ensures
        s.len() == n,
        forall|i: int| 0 <= i < s.len() ==> (s[i] as nat) < n,
{
    broadcast use vstd::seq_lib::group_to_multiset_ensures;

    assert(s.to_multiset().len() == s.len());
    assert(ident_order(n).to_multiset().len() == ident_order(n).len());
    assert forall|i: int| 0 <= i < s.len() implies (s[i] as nat) < n by {
        assert(s.contains(s[i]));
        assert(s.to_multiset().count(s[i]) > 0);
        assert(ident_order(n).to_multiset().count(s[i]) > 0);
        assert(ident_order(n).contains(s[i]));
        let j = choose|j: int|
            0 <= j < ident_order(n).len() && ident_order(n)[j] == s[i];
        assert(ident_order(n)[j] == j as usize);
    }
}

/// The identity order `0, 1, ..., n - 1` as a vector.
fn identity_order(n: usize) -> (r: Vec<usize>)
    ensures
        r@ == ident_order(n as nat),
{
    let mut r: Vec<usize> = Vec::new();
    let mut i: usize = 0;
    while i < n
        invariant
            i <= n,
            r@ == ident_order(i as nat),
        decreases n - i,
    {
        r.push(i);
        proof {
            assert(r@ =~= ident_order((i + 1) as nat));
        }
        i = i + 1;
    }
    r
}

/// One `None` slot per card: no response recorded yet.
fn none_responses(n: usize) -> (r: Vec<Option<String>>)
    ensures
        r@ == Seq::new(n as nat, |i: int| None::<String>),
{
    let mut r: Vec<Option<String>> = Vec::new();
    let mut i: usize = 0;
    while i < n
        invariant
            i <= n,
            r@ == Seq::new(i as nat, |k: int| None::<String>),
        decreases n - i,
    {
        r.push(None);
        proof {
            assert(r@ =~= Seq::new((i + 1) as nat, |k: int| None::<String>));
        }
        i = i + 1;
    }
    r
}

/// Exact copies of a list of strings.
fn clone_strings(v: &Vec<String>) -> (r: Vec<String>)
    ensures
        r@ == v@,
{
    let mut r: Vec<String> = Vec::new();
    let mut i: usize = 0;
    while i < v.len()
        invariant
            i <= v@.len(),
            r@ == v@.subrange(0, i as int),
        decreases v@.len() - i,
    {
        r.push(v[i].clone());
        proof {
            assert(v@.subrange(0, i + 1) =~= v@.subrange(0, i as int).push(v@[i as int]));
        }
        i = i + 1;
    }
    proof {
        assert(v@.subrange(0, v@.len() as int) =~= v@);
    }
    r
}

/// Relies on rand's `SliceRandom::shuffle` (a Fisher-Yates walk of swaps):
/// it rearranges the slice in place, so exactly the same elements remain,
/// whatever order the generator picks.
#[verifier::external_body]
fn shuffle_in_place(v: &mut Vec<usize>)
    ensures
        final(v)@.to_multiset() == old(v)@.to_multiset(),
{
    let mut rng = rand::thread_rng();
    v.as_mut_slice().shuffle(&mut rng);
}

/// Relies on chrono's `Local::now` and `DelayedFormat`: the local wall-clock
/// time rendered in a fixed, sortable stamp pattern. Nothing is assumed of
/// the characters, since the result depends on the clock.
#[verifier::external_body]
fn now_stamp() -> String {
    chrono::Local::now().format("%Y%m%d-%H%M%S").to_string()
}

/// The separator line drawn between transcript entries.
pub open spec fn separator_line() -> Seq<char> {
    "------------------------------------------------------------"@
}

/// The separator line as a string.
fn separator_string() -> (r: String)
    ensures
        r@ == separator_line(),
{
    String::from_str("------------------------------------------------------------")
}

/// A failed load: the two deck files hold different numbers of cards.
#[derive(Debug)]
pub enum DeckError {
    Mismatch { questions: usize, answers: usize },
}

/// The engine for one topic: parallel question and answer lists, the study
/// order with its cursor, and one optional recorded response per card.
pub struct FlashCardEngine {
    pub questions: Vec<String>,
    pub answers: Vec<String>,
    pub order: Vec<usize>,
    pub current: usize,
    pub random: bool,
    pub responses: Vec<Option<String>>,
}

/// What a successful load builds from the raw lines of the two deck files:
/// the trimmed non-blank lines of each side, the identity order, the cursor
/// at the start, sequential mode, and no responses.
pub open spec fn eng_loaded(
    e: FlashCardEngine,
    q_raw: Seq<Seq<char>>,
    a_raw: Seq<Seq<char>>,
) -> bool {
    let qs = normalize_lines(q_raw);
    let ans = normalize_lines(a_raw);
    &&& qs.len() == ans.len()
    &&& e.questions.deep_view() == qs
    &&& e.answers.deep_view() == ans
    &&& e.order@ == ident_order(qs.len())
    &&& e.current == 0
    &&& e.random == false
    &&& e.responses@ == Seq::new(qs.len(), |i: int| None::<String>)
}

/// What setting the study mode does: the cards and responses stay, the
/// cursor returns to the start, and the order becomes the identity when
/// sequential or some arrangement of the same indices when random.
pub open spec fn eng_mode_set(e: FlashCardEngine, e2: FlashCardEngine, random: bool) -> bool {
    &&& e2.questions == e.questions
    &&& e2.answers == e.answers
    &&& e2.responses == e.responses
    &&& e2.random == random
    &&& e2.current == 0
    &&& is_perm(e2.order@, e.questions@.len() as nat)
    &&& (!random ==> e2.order@ == ident_order(e.questions@.len() as nat))
}

/// What advancing does: only the cursor moves, forward by one.
pub open spec fn eng_advanced(e: FlashCardEngine, e2: FlashCardEngine) -> bool {
    e2 == (FlashCardEngine { current: (e.current + 1) as usize, ..e })
}

/// What recording does, seen through the text: the slot for the card now
/// holds the given characters, and nothing else moves.
pub open spec fn eng_recorded_text(
    e: FlashCardEngine,
    e2: FlashCardEngine,
    idx: int,
    text: Seq<char>,
) -> bool {
    &&& e2.responses@.len() == e.responses@.len()
    &&& (forall|k: int|
        0 <= k < e.responses@.len() && k != idx ==> e2.responses@[k] == e.responses@[k])
    &&& 0 <= idx < e2.responses@.len()
    &&& (e2.responses@[idx] matches Some(r) && r@ == text)
    &&& e2.questions == e.questions
    &&& e2.answers == e.answers
    &&& e2.order == e.order
    &&& e2.current == e.current
    &&& e2.random == e.random
}

/// What committing a question edit does, seen through the text: the one
/// question now reads as the given characters, and nothing else moves.
pub open spec fn eng_question_set(
    e: FlashCardEngine,
    e2: FlashCardEngine,
    i: int,
    text: Seq<char>,
) -> bool {
    &&& e2.questions@.len() == e.questions@.len()
    &&& (forall|k: int|
        0 <= k < e.questions@.len() && k != i ==> e2.questions@[k] == e.questions@[k])
    &&& 0 <= i < e2.questions@.len()
    &&& e2.questions@[i]@ == text
    &&& e2.answers == e.answers
    &&& e2.responses == e.responses
    &&& e2.order == e.order
    &&& e2.current == e.current
    &&& e2.random == e.random
}

/// What committing an answer edit does, seen through the text.
pub open spec fn eng_answer_set(
    e: FlashCardEngine,
    e2: FlashCardEngine,
    i: int,
    text: Seq<char>,
) -> bool {
    &&& e2.answers@.len() == e.answers@.len()
    &&& (forall|k: int|
        0 <= k < e.answers@.len() && k != i ==> e2.answers@[k] == e.answers@[k])
    &&& 0 <= i < e2.answers@.len()
    &&& e2.answers@[i]@ == text
    &&& e2.questions == e.questions
    &&& e2.responses == e.responses
    &&& e2.order == e.order
    &&& e2.current == e.current
    &&& e2.random == e.random
}

/// What appending a blank card does: both texts and the response slot grow
/// by one empty entry, and the order becomes the identity over the grown
/// deck.
pub open spec fn eng_added(e: FlashCardEngine, e2: FlashCardEngine) -> bool {
    &&& e2.questions.deep_view() == e.questions.deep_view().push(Seq::<char>::empty())
    &&& e2.answers.deep_view() == e.answers.deep_view().push(Seq::<char>::empty())
    &&& e2.responses@ == e.responses@.push(None)
    &&& e2.questions@.len() == e.questions@.len() + 1
    &&& e2.order@ == ident_order((e.questions@.len() + 1) as nat)
    &&& e2.current == e.current
    &&& e2.random == e.random
}

/// What deleting a card does: the card leaves all three lists, the order
/// becomes the identity over the shrunken deck, and the cursor is clamped
/// back into range.
pub open spec fn eng_deleted(e: FlashCardEngine, e2: FlashCardEngine, i: int) -> bool {
    &&& e2.questions@ == e.questions@.remove(i)
    &&& e2.answers@ == e.answers@.remove(i)
    &&& e2.responses@ == e.responses@.remove(i)
    &&& e2.order@ == ident_order((e.questions@.len() - 1) as nat)
    &&& e2.current == if e.current <= e.questions@.len() - 1 {
        e.current as int
    } else {
        e.questions@.len() - 1
    }
    &&& e2.random == e.random
}

impl FlashCardEngine {
    /// The structural invariant: answers and responses run parallel to the
    /// questions, the order is an arrangement of all card indices, and the
    /// cursor stays within the order (equal length meaning "complete").
    pub open spec fn wf(self) -> bool {
        &&& self.answers@.len() == self.questions@.len()
        &&& self.responses@.len() == self.questions@.len()
        &&& is_perm(self.order@, self.questions@.len() as nat)
        &&& self.current <= self.order@.len()
    }

    /// The denominator of the progress ratio: the order length, kept at
    /// least one so an empty deck divides cleanly.
    pub open spec fn denom(self) -> int {
        if self.order@.len() == 0 {
            1
        } else {
            self.order@.len() as int
        }
    }

    /// The progress ratio as an exact pair: cards passed over the deck size.
    pub open spec fn progress_model(self) -> (int, int) {
        (self.current as int, self.denom())
    }

    /// Builds an engine from the raw lines of the two deck files. Each
    /// side is trimmed and stripped of blank lines; the load succeeds
    /// exactly when the two cleaned sides have the same number of lines,
    /// and otherwise reports both counts.
    pub fn from_files(q_raw: &Vec<String>, a_raw: &Vec<String>) -> (r: Result<
        FlashCardEngine,
        DeckError,
    >)
        ensures
            ({
                let qs = normalize_lines(q_raw.deep_view());
                let ans = normalize_lines(a_raw.deep_view());
                match r {
                    Ok(e) => e.wf() && eng_loaded(e, q_raw.deep_view(), a_raw.deep_view()),
                    Err(DeckError::Mismatch { questions, answers }) => {
                        &&& questions == qs.len()
                        &&& answers == ans.len()
                        &&& qs.len() != ans.len()
                    },
                }
            }),
    {
        let questions = read_nonempty_lines(q_raw);
        let answers = read_nonempty_lines(a_raw);
        proof {
            assert(questions@.len() == questions.deep_view().len());
            assert(answers@.len() == answers.deep_view().len());
        }
        if questions.len() != answers.len() {
            return Err(DeckError::Mismatch {
                questions: questions.len(),
                answers: answers.len(),
            });
        }
        let n = questions.len();
        let order = identity_order(n);
        let responses = none_responses(n);
        Ok(FlashCardEngine { questions, answers, order, current: 0, random: false, responses })
    }

    /// Rebuilds the study order for a new pass: the identity order when
    /// sequential, some arrangement of the same indices when random; the
    /// cursor returns to the start either way.
    pub fn set_mode(&mut self, random: bool)
        requires
            old(self).wf(),
        ensures
            final(self).wf(),
            eng_mode_set(*old(self), *final(self), random),
    {
        let n = self.questions.len();
        self.order = identity_order(n);
        if random {
            shuffle_in_place(&mut self.order);
        }
        self.current = 0;
        self.random = random;
    }

    /// The card the cursor points at: its deck index and both texts, or
    /// nothing once the session is complete.
    pub fn current_card(&self) -> (r: Option<(usize, String, String)>)
        requires
            self.wf(),
        ensures
            match r {
                Some(card) => {
                    &&& self.current < self.order@.len()
                    &&& card.0 == self.order@[self.current as int]
                    &&& (card.0 as int) < self.questions@.len()
                    &&& card.1 == self.questions@[card.0 as int]
                    &&& card.2 == self.answers@[card.0 as int]
                },
                None => self.current >= self.order@.len(),
            },
    {
        if self.current < self.order.len() {
            let idx = self.order[self.current];
            proof {
                assert(self.questions.len() == self.questions@.len());
                lemma_perm_range(self.order@, self.questions@.len() as nat);
            }
            Some((idx, self.questions[idx].clone(), self.answers[idx].clone()))
        } else {
            None
        }
    }

    /// Stores the response for a card, replacing any earlier one; nothing
    /// else moves.
    pub fn record(&mut self, idx: usize, resp: String)
        requires
            old(self).wf(),
            (idx as int) < old(self).responses@.len(),
        ensures
            final(self).wf(),
            final(self).responses@ == old(self).responses@.update(idx as int, Some(resp)),
            final(self).questions == old(self).questions,
            final(self).answers == old(self).answers,
            final(self).order == old(self).order,
            final(self).current == old(self).current,
            final(self).random == old(self).random,
    {
        self.responses[idx] = Some(resp);
    }

    /// Moves the cursor forward by one card.
    pub fn next(&mut self)
        requires
            old(self).wf(),
            old(self).current < old(self).order@.len(),
        ensures
            final(self).wf(),
            eng_advanced(*old(self), *final(self)),
    {
        proof {
            assert(self.order.len() == self.order@.len());
        }
        self.current = self.current + 1;
    }

    /// Whether the session has passed the last card of the order.
    pub fn done(&self) -> (r: bool)
        ensures
            r == (self.current >= self.order@.len()),
    {
        self.current >= self.order.len()
    }

    /// The progress ratio as an exact numerator/denominator pair; the
    /// caller may divide for display.
    pub fn progress(&self) -> (r: (usize, usize))
        ensures
            r.0 == self.current,
            r.1 == self.denom(),
            self.wf() ==> r.0 <= r.1,
    {
        (self.current, max_usize(self.order.len(), 1))
    }

    /// The exact questions and answers, for writing back to the deck files.
    pub fn persist_edits(&self) -> (r: (Vec<String>, Vec<String>))
        ensures
            r.0@ == self.questions@,
            r.1@ == self.answers@,
    {
        (clone_strings(&self.questions), clone_strings(&self.answers))
    }

    /// Appends a blank card to both lists and rebuilds the identity order
    /// over the grown deck.
    pub fn add_card(&mut self)
        requires
            old(self).wf(),
        ensures
            final(self).wf(),
            eng_added(*old(self), *final(self)),
    {
        let ghost qs_before = self.questions.deep_view();
        let ghost ans_before = self.answers.deep_view();
        proof {
            assert(self.questions.len() == self.questions@.len());
        }
        self.questions.push(String::new());
        self.answers.push(String::new());
        self.responses.push(None);
        let n = self.questions.len();
        self.order = identity_order(n);
        proof {
            lemma_perm_range(old(self).order@, old(self).questions@.len() as nat);
            assert(self.questions.deep_view() =~= qs_before.push(Seq::<char>::empty()));
            assert(self.answers.deep_view() =~= ans_before.push(Seq::<char>::empty()));
        }
    }

    /// Removes the card at `i` from all three lists, rebuilds the identity
    /// order over the shrunken deck, and keeps the cursor in range.
    pub fn delete_card(&mut self, i: usize)
        requires
            old(self).wf(),
            (i as int) < old(self).questions@.len(),
        ensures
            final(self).wf(),
            eng_deleted(*old(self), *final(self), i as int),
    {
        proof {
            assert(self.questions.len() == self.questions@.len());
            lemma_perm_range(old(self).order@, old(self).questions@.len() as nat);
        }
        self.questions.remove(i);
        self.answers.remove(i);
        self.responses.remove(i);
        let n = self.questions.len();
        self.order = identity_order(n);
        self.current = min_usize(self.current, n);
    }

    /// Replaces the text of one question; the committed form of a question
    /// edit.
    pub fn set_question_text(&mut self, i: usize, text: String)
        requires
            old(self).wf(),
            (i as int) < old(self).questions@.len(),
        ensures
            final(self).wf(),
            final(self).questions@ == old(self).questions@.update(i as int, text),
            final(self).answers == old(self).answers,
            final(self).responses == old(self).responses,
            final(self).order == old(self).order,
            final(self).current == old(self).current,
            final(self).random == old(self).random,
    {
        self.questions[i] = text;
    }

    /// Replaces the text of one answer; the committed form of an answer
    /// edit.
    pub fn set_answer_text(&mut self, i: usize, text: String)
        requires
            old(self).wf(),
            (i as int) < old(self).answers@.len(),
        ensures
            final(self).wf(),
            final(self).answers@ == old(self).answers@.update(i as int, text),
            final(self).questions == old(self).questions,
            final(self).responses == old(self).responses,
            final(self).order == old(self).order,
            final(self).current == old(self).current,
            final(self).random == old(self).random,
    {
        self.answers[i] = text;
    }

    /// The lines of one transcript entry: the session and deck positions
    /// (both one-based), the question, the response or its placeholder, the
    /// answer, and a separator, with the blank lines between them.
    pub open spec fn entry_lines(self, i: int) -> Seq<Seq<char>> {
        let idx = self.order@[i] as int;
        let resp = match self.responses@[idx] {
            Some(r) => r@,
            None => "(none)"@,
        };
        seq![
            "Q"@ + dec_of((i + 1) as nat) + " (#"@ + dec_of((idx + 1) as nat) + ")"@,
            self.questions@[idx]@,
            Seq::<char>::empty(),
            "Your answer:"@,
            resp,
            Seq::<char>::empty(),
            "Correct:"@,
            self.answers@[idx]@,
            Seq::<char>::empty(),
            separator_line(),
            Seq::<char>::empty(),
        ]
    }

    /// The transcript lines for the first `k` cards of the study order.
    pub open spec fn transcript_prefix(self, k: int) -> Seq<Seq<char>>
        decreases k,
    {
        if k <= 0 {
            Seq::empty()
        } else {
            self.transcript_prefix(k - 1) + self.entry_lines(k - 1)
        }
    }

    /// The whole transcript: every card of the study order, in study order.
    pub open spec fn transcript_spec(self) -> Seq<Seq<char>> {
        self.transcript_prefix(self.order@.len() as int)
    }

    /// The transcript entry for the card at order position `i`.
    fn entry_vec(&self, i: usize) -> (r: Vec<String>)
        requires
            self.wf(),
            (i as int) < self.order@.len(),
        ensures
            r.deep_view() == self.entry_lines(i as int),
    {
        let idx = self.order[i];
        proof {
            assert(self.questions.len() == self.questions@.len());
            lemma_perm_range(self.order@, self.questions@.len() as nat);
        }
        let mut r: Vec<String> = Vec::new();
        let mut head = String::from_str("Q");
        let session_pos = dec_string(i + 1);
        head.append(session_pos.as_str());
        head.append(" (#");
        let deck_pos = dec_string(idx + 1);
        head.append(deck_pos.as_str());
        head.append(")");
        r.push(head);
        r.push(self.questions[idx].clone());
        r.push(String::new());
        r.push(String::from_str("Your answer:"));
        match &self.responses[idx] {
            Some(resp) => r.push(resp.clone()),
            None => r.push(String::from_str("(none)")),
        }
        r.push(String::new());
        r.push(String::from_str("Correct:"));
        r.push(self.answers[idx].clone());
        r.push(String::new());
        r.push(separator_string());
        r.push(String::new());
        proof {
            assert(r.deep_view() =~= self.entry_lines(i as int));
        }
        r
    }

    /// The session transcript: a file name carrying a timestamp, and the
    /// lines to write into it, covering every card in study order.
    pub fn save_session(&self) -> (r: (String, Vec<String>))
        requires
            self.wf(),
        ensures
            r.1.deep_view() == self.transcript_spec(),
            exists|stamp: Seq<char>|
                r.0@ == "flashcard_responses_"@ + stamp + ".txt"@,
    {
        let stamp = now_stamp();
        let mut name = String::from_str("flashcard_responses_");
        name.append(stamp.as_str());
        name.append(".txt");
        proof {
            assert(name@ == "flashcard_responses_"@ + stamp@ + ".txt"@);
        }
        let mut lines: Vec<String> = Vec::new();
        let mut i: usize = 0;
        while i < self.order.len()
            invariant
                self.wf(),
                i <= self.order@.len(),
                lines.deep_view() == self.transcript_prefix(i as int),
            decreases self.order@.len() - i,
        {
            let mut entry = self.entry_vec(i);
            let ghost lines_before = lines.deep_view();
            let ghost entry_view = entry.deep_view();
            lines.append(&mut entry);
            proof {
                assert(lines.deep_view() =~= lines_before + entry_view);
            }
            i = i + 1;
        }
        (name, lines)
    }

    /// Whether a card has been visited: a card is seen exactly when a
    /// response is on record for it, since the one recording operation
    /// marks both together.
    pub fn seen(&self, idx: usize) -> (r: bool)
        ensures
            r == ((idx as int) < self.responses@.len() && self.responses@[idx as int] is Some),
    {
        idx < self.responses.len() && self.responses[idx].is_some()
    }

    /// Whether any card has a recorded response.
    pub fn answered_any(&self) -> (r: bool)
        ensures
            r == (exists|k: int|
                0 <= k < self.responses@.len() && self.responses@[k] is Some),
    {
        let mut i: usize = 0;
        while i < self.responses.len()
            invariant
                i <= self.responses@.len(),
                forall|k: int| 0 <= k < i ==> !(self.responses@[k] is Some),
            decreases self.responses@.len() - i,
        {
            if self.responses[i].is_some() {
                return true;
            }
            i = i + 1;
        }
        false
    }
}

/// The set of card indices holding a recorded response.
pub open spec fn answered_set(rs: Seq<Option<String>>) -> Set<int> {
    Set::new(|k: int| 0 <= k < rs.len() && rs[k] is Some)
}

/// One ratio is at most another, compared as cross products so no division
/// is needed.
pub open spec fn ratio_le(a: (int, int), b: (int, int)) -> bool {
    a.0 * b.1 <= b.0 * a.1
}

/// Moving the cursor forward never lowers the progress ratio: the
/// denominator is fixed within a session, and the numerator only grows.
pub proof fn law_progress_monotonic(pre: FlashCardEngine, post: FlashCardEngine)
    requires
        pre.wf(),
        pre.current < pre.order@.len(),
        post == (FlashCardEngine { current: (pre.current + 1) as usize, ..pre }),
    ensures
        ratio_le(pre.progress_model(), post.progress_model()),
{
    assert(pre.order.len() == pre.order@.len());
    assert(post.current == pre.current + 1);
    assert(post.denom() == pre.denom());
    assert(pre.current * pre.denom() <= (pre.current + 1) * pre.denom())
        by (nonlinear_arith)
        requires
            pre.denom() >= 1,
    ;
}

/// Once a session over a non-empty deck is complete, the progress ratio is
/// exactly one: the numerator equals the denominator.
pub proof fn law_progress_complete(e: FlashCardEngine)
    requires
        e.wf(),
        e.order@.len() > 0,
        e.current >= e.order@.len(),
    ensures
        e.progress_model().0 == e.progress_model().1,
{
}

/// Recording a second response for the same card keeps only the later one:
/// two updates of the slot collapse into the last.
pub proof fn law_record_latest(rs: Seq<Option<String>>, idx: int, first: String, second: String)
    requires
        0 <= idx < rs.len(),
    ensures
        rs.update(idx, Some(first)).update(idx, Some(second)) == rs.update(idx, Some(second)),
{
    assert(rs.update(idx, Some(first)).update(idx, Some(second)) =~= rs.update(
        idx,
        Some(second),
    ));
}

/// The answered indices always form a finite set no larger than the deck:
/// every key is a card slot, and there is one slot per card.
pub proof fn law_response_keys_bounded(rs: Seq<Option<String>>)
    ensures
        answered_set(rs).finite(),
        answered_set(rs).len() <= rs.len(),
{
    let range = vstd::set_lib::set_int_range(0, rs.len() as int);
    vstd::set_lib::lemma_int_range(0, rs.len() as int);
    assert(answered_set(rs) <= range);
    vstd::set_lib::lemma_len_subset(answered_set(rs), range);
}

/// A deck whose card texts are all clean lines survives a persist-and-load
/// round trip unchanged: loading applies trimming and blank-line dropping,
/// and clean lines are fixed points of both.
pub proof fn law_persist_round_trip(e: FlashCardEngine)
    requires
        forall|k: int|
            0 <= k < e.questions.deep_view().len() ==> clean_line(e.questions.deep_view()[k]),
        forall|k: int|
            0 <= k < e.answers.deep_view().len() ==> clean_line(e.answers.deep_view()[k]),
    ensures
        normalize_lines(e.questions.deep_view()) == e.questions.deep_view(),
        normalize_lines(e.answers.deep_view()) == e.answers.deep_view(),
{
    law_normalize_clean(e.questions.deep_view());
    law_normalize_clean(e.answers.deep_view());
}

} // verus!
