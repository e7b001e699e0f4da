//! The question panel: answers collected for the agent's questions, the key
//! handling that moves between questions and options, and the answer map
//! that is sent back.
use vstd::prelude::*;
use crate::keys::{KeyCode, KeyPress};
use crate::list_nav::{
    classify_list_nav, cycle_next, cycle_previous, list_nav_of, next_sel, next_selection, prev_sel,
    previous_selection, ListNavAction,
};
use crate::textarea::{fits, utf8_len, TextAreaState};
use crate::text::{chars_of, string_from_chars};
use crate::wrap::trim;

verus! {

/// One preset answer of a question.
#[derive(Debug)]
pub struct QuestionOption {
    pub label: String,
    pub description: String,
}

/// One question the agent asks.
#[derive(Debug)]
pub struct Question {
    pub id: String,
    pub header: String,
    pub question: String,
    pub options: Vec<QuestionOption>,
    pub multi_select: bool,
}

/// The questions of one request.
#[derive(Debug)]
pub struct AskUser {
    pub questions: Vec<Question>,
}

/// The answer sent for one question: a text, or a list of texts for
/// multi-select questions.
#[derive(Debug, PartialEq, Eq)]
pub enum AnswerValue {
    Text(String),
    List(Vec<String>),
}

/// Mathematical form of an answer.
pub enum AnswerView {
    Text(Seq<char>),
    List(Seq<Seq<char>>),
}

pub open spec fn strings_view(v: Seq<String>) -> Seq<Seq<char>> {
    v.map_values(|s: String| s@)
}

impl View for AnswerValue {
    type V = AnswerView;

    open spec fn view(&self) -> AnswerView {
        match self {
            AnswerValue::Text(s) => AnswerView::Text(s@),
            AnswerValue::List(v) => AnswerView::List(strings_view(v@)),
        }
    }
}

/// Custom text typed for question `i`, if any.
pub open spec fn custom_at(custom: Seq<Option<String>>, i: int) -> Option<Seq<char>> {
    if 0 <= i < custom.len() {
        match custom[i] {
            Some(s) => Some(s@),
            None => None,
        }
    } else {
        None
    }
}

/// Option indexes chosen for question `i` (none when out of range).
pub open spec fn selected_at(answers: Seq<Vec<usize>>, i: int) -> Seq<usize> {
    if 0 <= i < answers.len() { answers[i]@ } else { Seq::empty() }
}

/// Labels of the chosen options that exist, in the order chosen.
pub open spec fn option_labels(opts: Seq<QuestionOption>, sel: Seq<usize>) -> Seq<Seq<char>>
    decreases sel.len(),
{
    if sel.len() == 0 {
        Seq::empty()
    } else {
        let prev = option_labels(opts, sel.drop_last());
        let idx = sel.last();
        if idx < opts.len() { prev.push(opts[idx as int].label@) } else { prev }
    }
}

/// The answer sent for a question: multi-select questions get the chosen
/// labels plus the custom text when it is not empty; single-select questions
/// get the custom text when there is one, else the first chosen label, else "".
pub open spec fn answer_for(q: Question, sel: Seq<usize>, custom: Option<Seq<char>>) -> AnswerView {
    let opts = q.options@;
    if q.multi_select {
        let labels = option_labels(opts, sel);
        match custom {
            Some(t) => if t.len() > 0 { AnswerView::List(labels.push(t)) } else { AnswerView::List(labels) },
            None => AnswerView::List(labels),
        }
    } else {
        match custom {
            Some(t) => AnswerView::Text(t),
            None => if sel.len() > 0 && sel[0] < opts.len() {
                AnswerView::Text(opts[sel[0] as int].label@)
            } else {
                AnswerView::Text(Seq::empty())
            },
        }
    }
}

/// Position of the first entry with key `k`, or -1.
pub open spec fn key_index(m: Seq<(Seq<char>, AnswerView)>, k: Seq<char>) -> int
    decreases m.len(),
{
    if m.len() == 0 {
        -1
    } else {
        let j = key_index(m.drop_last(), k);
        if j >= 0 { j } else if m.last().0 == k { m.len() - 1 } else { -1 }
    }
}

/// Map insertion: replaces the entry with key `k`, or appends one.
pub open spec fn upsert(m: Seq<(Seq<char>, AnswerView)>, k: Seq<char>, v: AnswerView) -> Seq<(Seq<char>, AnswerView)> {
    let j = key_index(m, k);
    if j >= 0 { m.update(j, (k, v)) } else { m.push((k, v)) }
}

/// The answer map for the first `n` questions, keyed by question id.
pub open spec fn answers_map(qs: Seq<Question>, answers: Seq<Vec<usize>>, custom: Seq<Option<String>>, n: int) -> Seq<(Seq<char>, AnswerView)>
    decreases n,
{
    if n <= 0 {
        Seq::empty()
    } else {
        let m = answers_map(qs, answers, custom, n - 1);
        let q = qs[n - 1];
        upsert(m, q.id@, answer_for(q, selected_at(answers, n - 1), custom_at(custom, n - 1)))
    }
}

/// The answer map for a request (empty without one).
pub open spec fn answers_map_of(pending: Option<&AskUser>, answers: Seq<Vec<usize>>, custom: Seq<Option<String>>) -> Seq<(Seq<char>, AnswerView)> {
    match pending {
        Some(au) => answers_map(au.questions@, answers, custom, au.questions@.len() as int),
        None => Seq::empty(),
    }
}

pub open spec fn entries_view(v: Seq<(String, AnswerValue)>) -> Seq<(Seq<char>, AnswerView)> {
    v.map_values(|e: (String, AnswerValue)| (e.0@, e.1@))
}

fn clone_string(s: &String) -> (r: String)
    ensures
        r@ == s@,
{
    s.clone()
}

/// Labels of the chosen options, computed.
fn labels_exec(opts: &Vec<QuestionOption>, sel: &Vec<usize>) -> (r: Vec<String>)
    ensures
        strings_view(r@) == option_labels(opts@, sel@),
{
    let mut out: Vec<String> = Vec::new();
    let mut i: usize = 0;
    assert(sel@.take(0) =~= Seq::<usize>::empty());
    while i < sel.len()
        invariant
            i <= sel@.len(),
            strings_view(out@) == option_labels(opts@, sel@.take(i as int)),
        decreases sel@.len() - i,
    {
        let idx = sel[i];
        assert(sel@.take(i + 1).drop_last() =~= sel@.take(i as int));
        if idx < opts.len() {
            let l = clone_string(&opts[idx].label);
            let ghost before = out@;
            out.push(l);
            assert(strings_view(out@) =~= strings_view(before).push(l@));
        }
        i = i + 1;
    }
    assert(sel@.take(sel@.len() as int) =~= sel@);
    out
}

/// The answer for one question, computed.
fn answer_exec(q: &Question, sel: &Vec<usize>, custom: &Option<String>) -> (r: AnswerValue)
    ensures
        r@ == answer_for(*q, sel@, match custom { Some(s) => Some(s@), None => None }),
{
    if q.multi_select {
        let mut labels = labels_exec(&q.options, sel);
        match custom {
            Some(t) => {
                if !t.as_str().is_empty() {
                    let ghost before = labels@;
                    labels.push(clone_string(t));
                    assert(strings_view(labels@) =~= strings_view(before).push(t@));
                }
            },
            None => {},
        }
        AnswerValue::List(labels)
    } else {
        match custom {
            Some(t) => AnswerValue::Text(clone_string(t)),
            None => {
                if sel.len() > 0 && sel[0] < q.options.len() {
                    AnswerValue::Text(clone_string(&q.options[sel[0]].label))
                } else {
                    AnswerValue::Text(String::new())
                }
            },
        }
    }
}

} // verus!

verus! {

proof fn lemma_key_index(m: Seq<(Seq<char>, AnswerView)>, k: Seq<char>)
    ensures
        -1 <= key_index(m, k) < m.len(),
        key_index(m, k) == -1 <==> (forall|j: int| 0 <= j < m.len() ==> m[j].0 != k),
        key_index(m, k) >= 0 ==> m[key_index(m, k)].0 == k
            && (forall|j: int| 0 <= j < key_index(m, k) ==> m[j].0 != k),
    decreases m.len(),
{
    if m.len() > 0 {
        lemma_key_index(m.drop_last(), k);
        assert forall|j: int| 0 <= j < m.len() - 1 implies m.drop_last()[j] == m[j] by {}
    }
}

/// Map insertion on the exec side.
fn upsert_exec(m: &mut Vec<(String, AnswerValue)>, k: String, v: AnswerValue)
    ensures
        entries_view(final(m)@) == upsert(entries_view(old(m)@), k@, v@),
{
    let ghost mv = entries_view(m@);
    proof { lemma_key_index(mv, k@); }
    let mut i: usize = 0;
    while i < m.len()
        invariant
            i <= m@.len(),
            mv == entries_view(m@),
            m@ == old(m)@,
            forall|j: int| 0 <= j < i ==> mv[j].0 != k@,
        decreases m@.len() - i,
    {
        if m[i].0 == k {
            proof {
                lemma_key_index(mv, k@);
                assert(mv[i as int].0 == k@);
                if key_index(mv, k@) == -1 {
                    assert(false);
                } else if key_index(mv, k@) < i {
                    assert(false);
                } else if key_index(mv, k@) > i {
                    assert(mv[i as int].0 != k@);
                }
            }
            assert(key_index(mv, k@) == i);
            let ghost kv = k@;
            let ghost vv = v@;
            m.set(i, (k, v));
            assert(entries_view(m@) =~= mv.update(i as int, (kv, vv)));
            return;
        }
        i = i + 1;
    }
    let ghost kv = k@;
    let ghost vv = v@;
    m.push((k, v));
    assert(entries_view(m@) =~= mv.push((kv, vv)));
}

/// The answer map sent back for the agent's questions: one entry per
/// question id (a later question with the same id replaces the earlier one).
pub fn build_answers_map(
    pending: Option<&AskUser>,
    answers: &Vec<Vec<usize>>,
    custom_answers: &Vec<Option<String>>,
) -> (r: Vec<(String, AnswerValue)>)
    ensures
        entries_view(r@) == answers_map_of(pending, answers@, custom_answers@),
{
    let mut m: Vec<(String, AnswerValue)> = Vec::new();
    match pending {
        None => {
            assert(entries_view(m@) =~= Seq::<(Seq<char>, AnswerView)>::empty());
            m
        },
        Some(au) => {
            let mut i: usize = 0;
            assert(entries_view(m@) =~= Seq::<(Seq<char>, AnswerView)>::empty());
            while i < au.questions.len()
                invariant
                    i <= au.questions@.len(),
                    entries_view(m@) == answers_map(au.questions@, answers@, custom_answers@, i as int),
                decreases au.questions@.len() - i,
            {
                let q = &au.questions[i];
                let empty: Vec<usize> = Vec::new();
                let none: Option<String> = None;
                let sel: &Vec<usize> = if i < answers.len() { &answers[i] } else { &empty };
                let cus: &Option<String> = if i < custom_answers.len() { &custom_answers[i] } else { &none };
                let v = answer_exec(q, sel, cus);
                proof {
                    assert(sel@ == selected_at(answers@, i as int));
                    assert((match *cus { Some(s) => Some(s@), None => None::<Seq<char>> }) == custom_at(custom_answers@, i as int));
                }
                upsert_exec(&mut m, clone_string(&q.id), v);
                i = i + 1;
            }
            m
        },
    }
}

} // verus!

verus! {

/// State of the question panel between key presses.
#[derive(Debug)]
pub struct AskUserNav {
    /// Question on screen.
    pub focused: usize,
    /// Option indexes chosen per question.
    pub answers: Vec<Vec<usize>>,
    /// Highlighted row: an option, or the custom-text row after the options.
    pub focused_option: usize,
    /// Whether the custom-text input has the keyboard.
    pub is_typing: bool,
    /// The custom-text input.
    pub typing: TextAreaState,
    /// Custom text confirmed per question.
    pub custom_answers: Vec<Option<String>>,
    /// Vertical scroll offset of the panel.
    pub scroll_y: u16,
    /// Identity of the request the state belongs to.
    pub fingerprint: Vec<String>,
}

/// Mathematical form of the panel state.
#[verifier::ext_equal]
pub struct AskNavView {
    pub focused: int,
    pub answers: Seq<Seq<usize>>,
    pub focused_option: int,
    pub is_typing: bool,
    pub typing: Seq<char>,
    pub typing_cursor: int,
    pub custom: Seq<Option<Seq<char>>>,
}

pub open spec fn answers_view(v: Seq<Vec<usize>>) -> Seq<Seq<usize>> {
    v.map_values(|a: Vec<usize>| a@)
}

pub open spec fn customs_view(v: Seq<Option<String>>) -> Seq<Option<Seq<char>>> {
    v.map_values(|c: Option<String>| match c { Some(s) => Some(s@), None => None })
}

impl View for AskUserNav {
    type V = AskNavView;

    open spec fn view(&self) -> AskNavView {
        AskNavView {
            focused: self.focused as int,
            answers: answers_view(self.answers@),
            focused_option: self.focused_option as int,
            is_typing: self.is_typing,
            typing: self.typing.text@,
            typing_cursor: self.typing.cursor as int,
            custom: customs_view(self.custom_answers@),
        }
    }
}

/// What the panel asks of its host after a key press.
#[derive(Debug)]
pub enum AskUserOutcome {
    /// The key is not for this panel.
    Ignored,
    /// The key was used; nothing more to do.
    Consumed,
    /// Send these answers for the pending request and close the panel.
    Submit(Vec<(String, AnswerValue)>),
    /// Ask the user to confirm rejecting the request.
    OpenRejectConfirm,
    /// Apply this key to the custom-text input.
    EditTyping,
}

/// Outcome kinds, for contracts.
pub enum OutcomeKind {
    Ignored,
    Consumed,
    Submit,
    OpenRejectConfirm,
    EditTyping,
}

pub open spec fn outcome_kind(o: AskUserOutcome) -> OutcomeKind {
    match o {
        AskUserOutcome::Ignored => OutcomeKind::Ignored,
        AskUserOutcome::Consumed => OutcomeKind::Consumed,
        AskUserOutcome::Submit(_) => OutcomeKind::Submit,
        AskUserOutcome::OpenRejectConfirm => OutcomeKind::OpenRejectConfirm,
        AskUserOutcome::EditTyping => OutcomeKind::EditTyping,
    }
}

/// How many questions a request has.
pub open spec fn question_count(pending: Option<&AskUser>) -> int {
    match pending {
        Some(au) => au.questions@.len() as int,
        None => 0,
    }
}

/// Number of options of question `q` (0 when there is no such question).
pub open spec fn option_count(pending: Option<&AskUser>, q: int) -> int {
    match pending {
        Some(au) => if 0 <= q < au.questions@.len() { au.questions@[q].options@.len() as int } else { 0 },
        None => 0,
    }
}

/// Whether question `q` exists.
pub open spec fn has_question(pending: Option<&AskUser>, q: int) -> bool {
    0 <= q < question_count(pending)
}

/// Whether question `q` is multi-select.
pub open spec fn is_multi(pending: Option<&AskUser>, q: int) -> bool {
    match pending {
        Some(au) => 0 <= q < au.questions@.len() && au.questions@[q].multi_select,
        None => false,
    }
}

/// Keys with no modifier.
pub open spec fn plain(key: KeyPress) -> bool {
    !key.ctrl && !key.shift
}

/// Keys that the custom-text input takes while it has the keyboard.
pub enum TypingKey {
    Commit,
    Cancel,
    Edit,
    Pass,
}

pub open spec fn typing_key_of(key: KeyPress) -> TypingKey {
    match key.code {
        KeyCode::Enter => if plain(key) { TypingKey::Commit } else { TypingKey::Pass },
        KeyCode::Esc => if plain(key) { TypingKey::Cancel } else { TypingKey::Pass },
        KeyCode::Backspace | KeyCode::Delete | KeyCode::Up | KeyCode::Down =>
            if plain(key) { TypingKey::Edit } else { TypingKey::Pass },
        KeyCode::Left | KeyCode::Right =>
            if plain(key) || (key.ctrl && !key.shift) { TypingKey::Edit } else { TypingKey::Pass },
        KeyCode::Char(c) =>
            if key.ctrl && !key.shift {
                if c == 'w' || c == 'W' || c == 'u' || c == 'a' || c == 'e' || c == 'z' || c == 'Z' || c == 'y' {
                    TypingKey::Edit
                } else {
                    TypingKey::Pass
                }
            } else if !key.ctrl {
                TypingKey::Edit
            } else {
                TypingKey::Pass
            },
        _ => TypingKey::Pass,
    }
}

/// Resizes with empty entries so that index `q` exists.
pub open spec fn grow_answers(a: Seq<Seq<usize>>, q: int) -> Seq<Seq<usize>> {
    if q < a.len() { a } else { a + Seq::new((q + 1 - a.len()) as nat, |i: int| Seq::<usize>::empty()) }
}

/// First position of `x` in `s`, or -1.
pub open spec fn index_of(s: Seq<usize>, x: usize) -> int
    decreases s.len(),
{
    if s.len() == 0 {
        -1
    } else {
        let j = index_of(s.drop_last(), x);
        if j >= 0 { j } else if s.last() == x { s.len() - 1 } else { -1 }
    }
}

/// Space on an option: multi-select questions toggle it in or out; single-select
/// questions choose it, or clear the choice if it was already chosen.
pub open spec fn toggle_spec(a: Seq<Seq<usize>>, q: int, opt: usize, multi: bool) -> Seq<Seq<usize>> {
    let g = grow_answers(a, q);
    let cur = g[q];
    let next = if multi {
        let p = index_of(cur, opt);
        if p >= 0 { cur.remove(p) } else { cur.push(opt) }
    } else if cur.len() > 0 && cur[0] == opt {
        Seq::empty()
    } else {
        seq![opt]
    };
    g.update(q, next)
}

/// Custom text of question `q` in the view, or the empty text.
pub open spec fn custom_text(custom: Seq<Option<Seq<char>>>, q: int) -> Seq<char> {
    if 0 <= q < custom.len() {
        match custom[q] {
            Some(t) => t,
            None => Seq::empty(),
        }
    } else {
        Seq::empty()
    }
}

/// The input takes the keyboard, holding the question's custom text.
pub open spec fn start_typing(s: AskNavView, q: int) -> AskNavView {
    let t = custom_text(s.custom, q);
    AskNavView { is_typing: true, typing: t, typing_cursor: utf8_len(t) as int, ..s }
}

/// Whether question `i` counts as answered for submitting.
pub open spec fn answered_or_free(s: AskNavView, pending: Option<&AskUser>, i: int) -> bool {
    ||| (0 <= i < s.answers.len() && s.answers[i].len() > 0)
    ||| (0 <= i < s.custom.len() && s.custom[i] is Some)
    ||| option_count(pending, i) == 0
}

/// Every entry of the answer list is answered, has custom text, or has no options.
pub open spec fn all_answered(s: AskNavView, pending: Option<&AskUser>) -> bool {
    forall|i: int| 0 <= i < s.answers.len() ==> #[trigger] answered_or_free(s, pending, i)
}

/// Question `i` still needs an answer.
pub open spec fn needs_answer(s: AskNavView, pending: Option<&AskUser>, i: int) -> bool {
    !((0 <= i < s.answers.len() && s.answers[i].len() > 0) || (0 <= i < s.custom.len() && s.custom[i] is Some))
        && option_count(pending, i) > 0
}

/// The first question after `q` (cyclically, from `q + k` on) that needs an
/// answer, or `q` when none does.
pub open spec fn seek_from(s: AskNavView, pending: Option<&AskUser>, q: int, k: int, n: int) -> int
    decreases n - k,
{
    if k >= n || n <= 0 {
        q
    } else if needs_answer(s, pending, (q + k) % n) {
        (q + k) % n
    } else {
        seek_from(s, pending, q, k + 1, n)
    }
}

/// Where Enter moves when some answer is missing.
pub open spec fn next_unanswered(s: AskNavView, pending: Option<&AskUser>, q: int) -> int {
    let n = question_count(pending);
    if n == 1 {
        q
    } else {
        seek_from(s, pending, q, 1, n)
    }
}

/// Consistency of the panel with its request: lists no longer than the
/// question list and the focus on an existing question.
pub open spec fn nav_wf(s: AskNavView, pending: Option<&AskUser>) -> bool {
    &&& s.answers.len() <= question_count(pending)
    &&& s.custom.len() <= question_count(pending)
    &&& (question_count(pending) > 0 ==> 0 <= s.focused < question_count(pending))
    &&& (question_count(pending) == 0 ==> s.focused == 0)
    &&& 0 <= s.focused_option
    &&& fits(s.typing)
    &&& (s.is_typing ==> has_question(pending, s.focused))
    &&& forall|i: int| 0 <= i < s.custom.len() && (#[trigger] s.custom[i]) is Some ==> fits(s.custom[i]->0)
    &&& options_fit(pending)
}

/// The panel's reaction to a key outside the input (or one the input lets through).
pub open spec fn nav_step(s: AskNavView, pending: Option<&AskUser>, key: KeyPress) -> (AskNavView, OutcomeKind) {
    let q = s.focused;
    let n = question_count(pending);
    if plain(key) && key.code == KeyCode::Char(' ') {
        if has_question(pending, q) && s.focused_option == option_count(pending, q) {
            (start_typing(s, q), OutcomeKind::Consumed)
        } else if has_question(pending, q) && s.focused_option < option_count(pending, q) {
            (AskNavView { answers: toggle_spec(s.answers, q, s.focused_option as usize, is_multi(pending, q)), ..s },
             OutcomeKind::Consumed)
        } else {
            (s, OutcomeKind::Consumed)
        }
    } else {
        match list_nav_of(key) {
            Some(ListNavAction::MoveUp) =>
                if s.is_typing { (s, OutcomeKind::Consumed) } else {
                    (AskNavView { focused_option: prev_sel(s.focused_option), ..s }, OutcomeKind::Consumed)
                },
            Some(ListNavAction::MoveDown) =>
                if s.is_typing { (s, OutcomeKind::Consumed) } else {
                    let limit = if has_question(pending, q) { option_count(pending, q) + 1 } else { 0 };
                    if limit > 0 {
                        let fo = next_sel(s.focused_option, limit);
                        let s2 = AskNavView { focused_option: fo, ..s };
                        if fo == limit - 1 { (start_typing(s2, q), OutcomeKind::Consumed) } else { (s2, OutcomeKind::Consumed) }
                    } else {
                        (s, OutcomeKind::Consumed)
                    }
                },
            Some(ListNavAction::CycleForward) =>
                if n <= 0 { (s, OutcomeKind::Ignored) } else if s.is_typing { (s, OutcomeKind::Consumed) } else {
                    let f = (q + 1) % n;
                    let fo = if 0 <= f < s.answers.len() && s.answers[f].len() > 0 { s.answers[f][0] as int } else { 0 };
                    (AskNavView { focused: f, focused_option: fo, ..s }, OutcomeKind::Consumed)
                },
            Some(ListNavAction::CycleBackward) =>
                if n <= 0 { (s, OutcomeKind::Ignored) } else if s.is_typing { (s, OutcomeKind::Consumed) } else {
                    let f = (q + n - 1) % n;
                    let fo = if 0 <= f < s.answers.len() && s.answers[f].len() > 0 { s.answers[f][0] as int } else { 0 };
                    (AskNavView { focused: f, focused_option: fo, ..s }, OutcomeKind::Consumed)
                },
            Some(ListNavAction::Confirm) =>
                if !all_answered(s, pending) {
                    (AskNavView { focused: next_unanswered(s, pending, q), focused_option: 0, ..s }, OutcomeKind::Consumed)
                } else if pending is Some {
                    (s, OutcomeKind::Submit)
                } else {
                    (s, OutcomeKind::Consumed)
                },
            Some(ListNavAction::Cancel) =>
                if pending is Some { (s, OutcomeKind::OpenRejectConfirm) } else { (s, OutcomeKind::Consumed) },
            None => (s, OutcomeKind::Ignored),
        }
    }
}

/// The panel's reaction to any key.
pub open spec fn ask_user_step(s: AskNavView, pending: Option<&AskUser>, key: KeyPress) -> (AskNavView, OutcomeKind) {
    if s.is_typing {
        match typing_key_of(key) {
            TypingKey::Commit => {
                let t = trim(s.typing);
                let custom = if t.len() > 0 {
                    let g = if s.focused < s.custom.len() { s.custom } else {
                        s.custom + Seq::new((s.focused + 1 - s.custom.len()) as nat, |i: int| None::<Seq<char>>)
                    };
                    g.update(s.focused, Some(t))
                } else {
                    s.custom
                };
                (AskNavView { custom, is_typing: false, ..s }, OutcomeKind::Consumed)
            },
            TypingKey::Cancel => (AskNavView { is_typing: false, ..s }, OutcomeKind::Consumed),
            TypingKey::Edit => (s, OutcomeKind::EditTyping),
            TypingKey::Pass => nav_step(s, pending, key),
        }
    } else {
        nav_step(s, pending, key)
    }
}

} // verus!

verus! {

fn grow_answers_exec(a: &mut Vec<Vec<usize>>, q: usize)
    requires
        q < usize::MAX,
    ensures
        answers_view(final(a)@) == grow_answers(answers_view(old(a)@), q as int),
        final(a)@.len() == if q < old(a)@.len() { old(a)@.len() } else { (q + 1) as nat },
{
    let ghost start = answers_view(a@);
    if q < a.len() {
        return;
    }
    while a.len() <= q
        invariant
            old(a)@.len() <= q < usize::MAX,
            old(a)@.len() <= a@.len() <= q + 1,
            answers_view(a@) == start + Seq::new((a@.len() - start.len()) as nat, |i: int| Seq::<usize>::empty()),
            start == answers_view(old(a)@),
        decreases q + 1 - a@.len(),
    {
        let ghost before = answers_view(a@);
        let e: Vec<usize> = Vec::new();
        assert(e@ == Seq::<usize>::empty());
        a.push(e);
        assert(answers_view(a@) =~= before.push(Seq::<usize>::empty()));
        assert(answers_view(a@) =~= start + Seq::new((a@.len() - start.len()) as nat, |i: int| Seq::<usize>::empty()));
    }
}

fn copy_indexes(v: &Vec<usize>) -> (r: Vec<usize>)
    ensures
        r@ == v@,
{
    let mut out: Vec<usize> = Vec::new();
    let mut i: usize = 0;
    while i < v.len()
        invariant
            i <= v@.len(),
            out@ == v@.take(i as int),
        decreases v@.len() - i,
    {
        out.push(v[i]);
        assert(v@.take(i as int).push(v@[i as int]) =~= v@.take(i + 1));
        i = i + 1;
    }
    assert(v@.take(v@.len() as int) =~= v@);
    out
}

proof fn lemma_index_of(s: Seq<usize>, x: usize)
    ensures
        -1 <= index_of(s, x) < s.len(),
        index_of(s, x) == -1 <==> (forall|j: int| 0 <= j < s.len() ==> s[j] != x),
        index_of(s, x) >= 0 ==> s[index_of(s, x)] == x
            && (forall|j: int| 0 <= j < index_of(s, x) ==> s[j] != x),
    decreases s.len(),
{
    if s.len() > 0 {
        lemma_index_of(s.drop_last(), x);
        assert forall|j: int| 0 <= j < s.len() - 1 implies s.drop_last()[j] == s[j] by {}
    }
}

fn index_of_exec(v: &Vec<usize>, x: usize) -> (r: Option<usize>)
    ensures
        match r {
            Some(p) => p as int == index_of(v@, x) && p < v@.len(),
            None => index_of(v@, x) == -1,
        },
{
    proof { lemma_index_of(v@, x); }
    let mut i: usize = 0;
    while i < v.len()
        invariant
            i <= v@.len(),
            forall|j: int| 0 <= j < i ==> v@[j] != x,
        decreases v@.len() - i,
    {
        if v[i] == x {
            proof {
                lemma_index_of(v@, x);
                if index_of(v@, x) != i {
                    assert(false);
                }
            }
            return Some(i);
        }
        i = i + 1;
    }
    None
}

fn toggle_exec(a: &mut Vec<Vec<usize>>, q: usize, opt: usize, multi: bool)
    requires
        q < usize::MAX,
    ensures
        answers_view(final(a)@) == toggle_spec(answers_view(old(a)@), q as int, opt, multi),
        final(a)@.len() == if q < old(a)@.len() { old(a)@.len() } else { (q + 1) as nat },
{
    grow_answers_exec(a, q);
    let ghost g = answers_view(a@);
    let cur = copy_indexes(&a[q]);
    let mut next: Vec<usize>;
    if multi {
        next = copy_indexes(&cur);
        match index_of_exec(&cur, opt) {
            Some(p) => { next.remove(p); },
            None => { next.push(opt); },
        }
    } else if cur.len() > 0 && cur[0] == opt {
        next = Vec::new();
    } else {
        next = Vec::new();
        next.push(opt);
    }
    let ghost nv = next@;
    a.set(q, next);
    assert(answers_view(a@) =~= g.update(q as int, nv));
}

fn clone_opt_string(c: &Option<String>) -> (r: String)
    ensures
        r@ == match c { Some(s) => s@, None => Seq::<char>::empty() },
{
    match c {
        Some(s) => s.clone(),
        None => String::new(),
    }
}

/// The input takes the keyboard with the custom text of question `q`.
fn start_typing_exec(nav: &mut AskUserNav, q: usize, Ghost(pending): Ghost<Option<&AskUser>>)
    requires
        nav_wf(old(nav)@, pending),
    ensures
        final(nav)@ == start_typing(old(nav)@, q as int),
        final(nav).scroll_y == old(nav).scroll_y,
        final(nav).fingerprint@ == old(nav).fingerprint@,
{
    let text = if q < nav.custom_answers.len() {
        clone_opt_string(&nav.custom_answers[q])
    } else {
        String::new()
    };
    proof {
        let ghost s = old(nav)@;
        if 0 <= q < s.custom.len() {
            assert(s.custom[q as int] == match nav.custom_answers@[q as int] { Some(t) => Some(t@), None => None::<Seq<char>> });
            if s.custom[q as int] is Some {
                assert(fits(s.custom[q as int]->0));
            }
        }
        assert(text@ == custom_text(s.custom, q as int));
    }
    nav.typing.replace_all_no_undo(text);
    nav.is_typing = true;
    proof {
        assert(nav@ =~= start_typing(old(nav)@, q as int));
    }
}

} // verus!

verus! {

/// Confirms the typed text as the custom answer of the focused question
/// (an empty text after trimming keeps the old one) and gives up the keyboard.
fn commit_typing_exec(nav: &mut AskUserNav, Ghost(pending): Ghost<Option<&AskUser>>)
    requires
        nav_wf(old(nav)@, pending),
        old(nav).is_typing,
    ensures
        final(nav)@ == ask_user_step(old(nav)@, pending, KeyPress { code: KeyCode::Enter, ctrl: false, shift: false }).0,
        nav_wf(final(nav)@, pending),
        final(nav).scroll_y == old(nav).scroll_y,
        final(nav).fingerprint@ == old(nav).fingerprint@,
{
    let ghost s = old(nav)@;
    let chars = chars_of(nav.typing.text.as_str());
    let t = crate::wrap::trimmed(&chars, 0, chars.len());
    proof {
        assert(chars@.subrange(0, chars@.len() as int) =~= chars@);
    }
    if t.len() > 0 {
        let q = nav.focused;
        proof {
            let (a, b) = crate::wrap::lemma_trim_is_subrange(s.typing);
            crate::textarea::lemma_utf8_len_concat(s.typing.take(a), s.typing.subrange(a, b));
            crate::textarea::lemma_utf8_len_concat(s.typing.take(a) + s.typing.subrange(a, b), s.typing.skip(b));
            assert(s.typing.take(a) + s.typing.subrange(a, b) + s.typing.skip(b) =~= s.typing);
        }
        let ghost before = customs_view(nav.custom_answers@);
        while nav.custom_answers.len() <= q
            invariant
                q == old(nav).focused,
                q < question_count(pending),
                old(nav).custom_answers@.len() <= nav.custom_answers@.len(),
                nav.custom_answers@.len() > old(nav).custom_answers@.len() ==> nav.custom_answers@.len() <= q + 1,
                before == customs_view(old(nav).custom_answers@),
                customs_view(nav.custom_answers@) == before
                    + Seq::new((nav.custom_answers@.len() - before.len()) as nat, |i: int| None::<Seq<char>>),
                nav.focused == old(nav).focused,
                nav.typing == old(nav).typing,
                nav.answers == old(nav).answers,
                nav.focused_option == old(nav).focused_option,
                nav.is_typing == old(nav).is_typing,
                nav.scroll_y == old(nav).scroll_y,
                nav.fingerprint == old(nav).fingerprint,
            decreases q + 1 - nav.custom_answers@.len(),
        {
            let ghost prev = customs_view(nav.custom_answers@);
            nav.custom_answers.push(None);
            assert(customs_view(nav.custom_answers@) =~= prev.push(None::<Seq<char>>));
            assert(customs_view(nav.custom_answers@) =~= before
                + Seq::new((nav.custom_answers@.len() - before.len()) as nat, |i: int| None::<Seq<char>>));
        }
        let ghost g = customs_view(nav.custom_answers@);
        let text = string_from_chars(t.as_slice());
        let ghost tv = text@;
        nav.custom_answers.set(q, Some(text));
        assert(customs_view(nav.custom_answers@) =~= g.update(q as int, Some(tv)));
    }
    nav.is_typing = false;
    proof {
        let ghost r = ask_user_step(s, pending, KeyPress { code: KeyCode::Enter, ctrl: false, shift: false }).0;
        assert(nav@ =~= r);
    }
}

/// Whether question `i` still needs an answer, computed.
fn needs_answer_exec(nav: &AskUserNav, pending: Option<&AskUser>, i: usize) -> (r: bool)
    ensures
        r == needs_answer(nav@, pending, i as int),
{
    let answered = (i < nav.answers.len() && nav.answers[i].len() > 0)
        || (i < nav.custom_answers.len() && nav.custom_answers[i].is_some());
    let has_options = match pending {
        Some(au) => i < au.questions.len() && au.questions[i].options.len() > 0,
        None => false,
    };
    proof {
        if i < nav.custom_answers.len() {
            assert(customs_view(nav.custom_answers@)[i as int] is Some == nav.custom_answers@[i as int] is Some);
        }
    }
    !answered && has_options
}

/// Whether every entry of the answer list counts as answered, computed.
fn all_answered_exec(nav: &AskUserNav, pending: Option<&AskUser>) -> (r: bool)
    ensures
        r == all_answered(nav@, pending),
{
    let mut i: usize = 0;
    while i < nav.answers.len()
        invariant
            i <= nav.answers@.len(),
            forall|j: int| 0 <= j < i ==> #[trigger] answered_or_free(nav@, pending, j),
        decreases nav.answers@.len() - i,
    {
        let ok = (nav.answers[i].len() > 0)
            || (i < nav.custom_answers.len() && nav.custom_answers[i].is_some())
            || match pending {
                Some(au) => !(i < au.questions.len() && au.questions[i].options.len() > 0),
                None => true,
            };
        proof {
            if i < nav.custom_answers.len() {
                assert(customs_view(nav.custom_answers@)[i as int] is Some == nav.custom_answers@[i as int] is Some);
            }
            assert(ok == answered_or_free(nav@, pending, i as int));
        }
        if !ok {
            return false;
        }
        i = i + 1;
    }
    true
}

/// The question Enter moves to when some answer is missing, computed.
fn next_unanswered_exec(nav: &AskUserNav, pending: Option<&AskUser>) -> (r: usize)
    requires
        nav_wf(nav@, pending),
        question_count(pending) > 0,
    ensures
        r as int == next_unanswered(nav@, pending, nav.focused as int),
        (r as int) < question_count(pending),
{
    let n = match pending { Some(au) => au.questions.len(), None => 0 };
    let q = nav.focused;
    if n == 1 {
        return q;
    }
    let mut k: usize = 1;
    while k < n
        invariant
            1 <= k <= n,
            n as int == question_count(pending),
            q < n,
            q == nav.focused,
            seek_from(nav@, pending, q as int, k as int, n as int) == seek_from(nav@, pending, q as int, 1, n as int),
        decreases n - k,
    {
        let idx = if k >= n - q { k - (n - q) } else { q + k };
        assert(idx as int == (q + k) as int % (n as int)) by (nonlinear_arith)
            requires idx == (if q + k >= n { q + k - n } else { q + k }), q < n, 1 <= k < n;
        if needs_answer_exec(nav, pending, idx) {
            return idx;
        }
        k = k + 1;
    }
    q
}

} // verus!

verus! {

/// How the custom-text input classifies a key, computed.
fn typing_key_exec(key: KeyPress) -> (r: TypingKey)
    ensures
        r == typing_key_of(key),
{
    let plain_key = !key.ctrl && !key.shift;
    let ctrl_only = key.ctrl && !key.shift;
    match key.code {
        KeyCode::Enter => if plain_key { TypingKey::Commit } else { TypingKey::Pass },
        KeyCode::Esc => if plain_key { TypingKey::Cancel } else { TypingKey::Pass },
        KeyCode::Backspace | KeyCode::Delete | KeyCode::Up | KeyCode::Down =>
            if plain_key { TypingKey::Edit } else { TypingKey::Pass },
        KeyCode::Left | KeyCode::Right =>
            if plain_key || ctrl_only { TypingKey::Edit } else { TypingKey::Pass },
        KeyCode::Char(c) =>
            if ctrl_only {
                if c == 'w' || c == 'W' || c == 'u' || c == 'a' || c == 'e' || c == 'z' || c == 'Z' || c == 'y' {
                    TypingKey::Edit
                } else {
                    TypingKey::Pass
                }
            } else if !key.ctrl {
                TypingKey::Edit
            } else {
                TypingKey::Pass
            },
        _ => TypingKey::Pass,
    }
}

fn focused_question<'a>(pending: Option<&'a AskUser>, q: usize) -> (r: Option<&'a Question>)
    ensures
        match r {
            Some(qq) => has_question(pending, q as int) && *qq == pending.unwrap().questions@[q as int],
            None => !has_question(pending, q as int),
        },
{
    match pending {
        Some(au) => if q < au.questions.len() { Some(&au.questions[q]) } else { None },
        None => None,
    }
}

/// The panel's reaction to a key outside the input.
fn nav_step_exec(nav: &mut AskUserNav, pending: Option<&AskUser>, key: KeyPress) -> (r: AskUserOutcome)
    requires
        nav_wf(old(nav)@, pending),
    ensures
        final(nav)@ == nav_step(old(nav)@, pending, key).0,
        outcome_kind(r) == nav_step(old(nav)@, pending, key).1,
        nav_wf(final(nav)@, pending),
        final(nav).scroll_y == old(nav).scroll_y,
        final(nav).fingerprint@ == old(nav).fingerprint@,
        match r {
            AskUserOutcome::Submit(m) => entries_view(m@) == answers_map_of(pending, old(nav).answers@, old(nav).custom_answers@),
            _ => true,
        },
{
    let ghost s = nav@;
    let q = nav.focused;
    let n: usize = match pending { Some(au) => au.questions.len(), None => 0 };
    let is_space = !key.ctrl && !key.shift && match key.code { KeyCode::Char(c) => c == ' ', _ => false };
    if is_space {
        match focused_question(pending, q) {
            Some(question) => {
                let oc = question.options.len();
                if nav.focused_option == oc {
                    start_typing_exec(nav, q, Ghost(pending));
                    return AskUserOutcome::Consumed;
                } else if nav.focused_option < oc {
                    let ghost before = nav@;
                    let fo = nav.focused_option;
                    toggle_exec(&mut nav.answers, q, fo, question.multi_select);
                    proof {
                        assert(nav@ =~= AskNavView { answers: toggle_spec(before.answers, q as int, fo, is_multi(pending, q as int)), ..before });
                    }
                    return AskUserOutcome::Consumed;
                }
            },
            None => {},
        }
        return AskUserOutcome::Consumed;
    }
    match classify_list_nav(key) {
        Some(ListNavAction::MoveUp) => {
            if !nav.is_typing {
                nav.focused_option = previous_selection(nav.focused_option);
                proof { assert(nav@ =~= AskNavView { focused_option: prev_sel(s.focused_option), ..s }); }
            }
            AskUserOutcome::Consumed
        },
        Some(ListNavAction::MoveDown) => {
            if !nav.is_typing {
                match focused_question(pending, q) {
                    Some(question) => {
                        let limit = question.options.len() + 1;
                        let fo = next_selection(nav.focused_option, limit);
                        nav.focused_option = fo;
                        let ghost s2 = nav@;
                        proof { assert(s2 =~= AskNavView { focused_option: fo as int, ..s }); }
                        if fo == limit - 1 {
                            start_typing_exec(nav, q, Ghost(pending));
                        }
                    },
                    None => {},
                }
            }
            AskUserOutcome::Consumed
        },
        Some(ListNavAction::CycleForward) => {
            if n == 0 {
                return AskUserOutcome::Ignored;
            }
            if !nav.is_typing {
                let f = cycle_next(q, n);
                let fo = if f < nav.answers.len() && nav.answers[f].len() > 0 { nav.answers[f][0] } else { 0 };
                nav.focused = f;
                nav.focused_option = fo;
                proof { assert(nav@ =~= AskNavView { focused: f as int, focused_option: fo as int, ..s }); }
            }
            AskUserOutcome::Consumed
        },
        Some(ListNavAction::CycleBackward) => {
            if n == 0 {
                return AskUserOutcome::Ignored;
            }
            if !nav.is_typing {
                let f = cycle_previous(q, n);
                let fo = if f < nav.answers.len() && nav.answers[f].len() > 0 { nav.answers[f][0] } else { 0 };
                nav.focused = f;
                nav.focused_option = fo;
                proof { assert(nav@ =~= AskNavView { focused: f as int, focused_option: fo as int, ..s }); }
            }
            AskUserOutcome::Consumed
        },
        Some(ListNavAction::Confirm) => {
            if !all_answered_exec(nav, pending) {
                proof {
                    let i = choose|i: int| 0 <= i < s.answers.len() && !#[trigger] answered_or_free(s, pending, i);
                    assert(0 <= i < s.answers.len());
                }
                let next = next_unanswered_exec(nav, pending);
                nav.focused = next;
                nav.focused_option = 0;
                proof { assert(nav@ =~= AskNavView { focused: next as int, focused_option: 0, ..s }); }
                AskUserOutcome::Consumed
            } else if pending.is_some() {
                let m = build_answers_map(pending, &nav.answers, &nav.custom_answers);
                AskUserOutcome::Submit(m)
            } else {
                AskUserOutcome::Consumed
            }
        },
        Some(ListNavAction::Cancel) => {
            if pending.is_some() { AskUserOutcome::OpenRejectConfirm } else { AskUserOutcome::Consumed }
        },
        None => AskUserOutcome::Ignored,
    }
}

/// Handles a key press on the question panel: the custom-text input takes
/// Enter (confirm), Esc (leave) and its editing keys while it has the
/// keyboard; otherwise Space chooses, arrows move, Tab/BackTab switch
/// questions, Enter submits once every question is answered (or jumps to the
/// next unanswered one) and Esc asks to reject the request.
pub fn ask_user_on_key(nav: &mut AskUserNav, pending: Option<&AskUser>, key: KeyPress) -> (r: AskUserOutcome)
    requires
        nav_wf(old(nav)@, pending),
    ensures
        final(nav)@ == ask_user_step(old(nav)@, pending, key).0,
        outcome_kind(r) == ask_user_step(old(nav)@, pending, key).1,
        nav_wf(final(nav)@, pending),
        final(nav).scroll_y == old(nav).scroll_y,
        final(nav).fingerprint@ == old(nav).fingerprint@,
        match r {
            AskUserOutcome::Submit(m) => entries_view(m@) == answers_map_of(pending, old(nav).answers@, old(nav).custom_answers@),
            _ => true,
        },
{
    if nav.is_typing {
        match typing_key_exec(key) {
            TypingKey::Commit => {
                commit_typing_exec(nav, Ghost(pending));
                AskUserOutcome::Consumed
            },
            TypingKey::Cancel => {
                let ghost s = nav@;
                nav.is_typing = false;
                proof { assert(nav@ =~= AskNavView { is_typing: false, ..s }); }
                AskUserOutcome::Consumed
            },
            TypingKey::Edit => AskUserOutcome::EditTyping,
            TypingKey::Pass => nav_step_exec(nav, pending, key),
        }
    } else {
        nav_step_exec(nav, pending, key)
    }
}

} // verus!

verus! {

/// Who owns a pending request: the client instance, its connection
/// generation, the prompt it belongs to and the request token.
#[derive(Debug, Clone)]
pub struct InteractionOwner {
    pub client_instance_id: u64,
    pub token: u64,
    pub session_id: String,
    pub generation: u64,
    pub prompt_epoch: u64,
}

/// A request waiting for the user's answers.
#[derive(Debug)]
pub struct PendingInteraction {
    pub owner: InteractionOwner,
    pub request_id_json: String,
    pub payload: AskUser,
}

/// The questions of a pending request, if any.
pub open spec fn payload_of(interaction: Option<&PendingInteraction>) -> Option<&AskUser> {
    match interaction {
        Some(i) => Some(&i.payload),
        None => None,
    }
}

/// Identity of a request: owner numbers in decimal, then the question ids.
pub open spec fn fingerprint_spec(interaction: Option<&PendingInteraction>) -> Seq<Seq<char>> {
    match interaction {
        Some(i) => seq![
            crate::text::decimal(i.owner.client_instance_id as nat),
            crate::text::decimal(i.owner.generation as nat),
            crate::text::decimal(i.owner.prompt_epoch as nat),
            crate::text::decimal(i.owner.token as nat),
        ] + i.payload.questions@.map_values(|q: Question| q.id@),
        None => Seq::empty(),
    }
}

/// Identity of a request, used to notice that the panel now shows another one.
pub fn interaction_fingerprint(interaction: Option<&PendingInteraction>) -> (r: Vec<String>)
    ensures
        strings_view(r@) == fingerprint_spec(interaction),
{
    let mut out: Vec<String> = Vec::new();
    match interaction {
        None => {
            assert(strings_view(out@) =~= Seq::<Seq<char>>::empty());
        },
        Some(i) => {
            out.push(crate::text::u64_to_decimal(i.owner.client_instance_id));
            out.push(crate::text::u64_to_decimal(i.owner.generation));
            out.push(crate::text::u64_to_decimal(i.owner.prompt_epoch));
            out.push(crate::text::u64_to_decimal(i.owner.token));
            let ghost head = strings_view(out@);
            let qs = &i.payload.questions;
            let mut k: usize = 0;
            while k < qs.len()
                invariant
                    k <= qs@.len(),
                    out@.len() == 4 + k,
                    strings_view(out@) == head + qs@.take(k as int).map_values(|q: Question| q.id@),
                decreases qs@.len() - k,
            {
                let ghost before = strings_view(out@);
                out.push(clone_string(&qs[k].id));
                proof {
                    assert(qs@.take(k + 1).map_values(|q: Question| q.id@)
                        =~= qs@.take(k as int).map_values(|q: Question| q.id@).push(qs@[k as int].id@));
                    assert(strings_view(out@) =~= before.push(qs@[k as int].id@));
                }
                k = k + 1;
            }
            proof {
                assert(qs@.take(qs@.len() as int) =~= qs@);
                assert(strings_view(out@) =~= fingerprint_spec(interaction));
            }
        },
    }
    out
}

fn strings_eq(a: &Vec<String>, b: &Vec<String>) -> (r: bool)
    ensures
        r == (strings_view(a@) == strings_view(b@)),
{
    if a.len() != b.len() {
        assert(strings_view(a@).len() != strings_view(b@).len());
        return false;
    }
    let mut i: usize = 0;
    while i < a.len()
        invariant
            a@.len() == b@.len(),
            i <= a@.len(),
            forall|k: int| 0 <= k < i ==> a@[k]@ == b@[k]@,
        decreases a@.len() - i,
    {
        if !crate::text::str_eq(a[i].as_str(), b[i].as_str()) {
            assert(strings_view(a@)[i as int] != strings_view(b@)[i as int]);
            return false;
        }
        i = i + 1;
    }
    assert(strings_view(a@) =~= strings_view(b@));
    true
}

/// Limits that the machine puts on a request: a question's option count
/// leaves room for the custom-text row.
pub open spec fn options_fit(pending: Option<&AskUser>) -> bool {
    forall|q: int| #[trigger] option_count(pending, q) < usize::MAX
}

/// The panel state for a fresh request of `n` questions.
pub open spec fn fresh_view(n: nat) -> AskNavView {
    AskNavView {
        focused: 0,
        answers: Seq::new(n, |i: int| Seq::<usize>::empty()),
        focused_option: 0,
        is_typing: false,
        typing: Seq::empty(),
        typing_cursor: 0,
        custom: Seq::new(n, |i: int| None::<Seq<char>>),
    }
}

/// When the request on screen is another one than the state belongs to,
/// starts over: no answers, no custom text, focus and scroll at the top.
/// Returns whether it did.
pub fn reset_for_owner_change(
    nav: &mut AskUserNav,
    interaction: Option<&PendingInteraction>,
    question_count: usize,
) -> (r: bool)
    ensures
        r == (strings_view(old(nav).fingerprint@) != fingerprint_spec(interaction)),
        r ==> final(nav)@ == fresh_view(question_count as nat)
            && final(nav).scroll_y == 0
            && strings_view(final(nav).fingerprint@) == fingerprint_spec(interaction),
        !r ==> *final(nav) == *old(nav),
        r && question_count as int == self::question_count(payload_of(interaction)) && options_fit(payload_of(interaction))
            ==> nav_wf(final(nav)@, payload_of(interaction)),
{
    let current = interaction_fingerprint(interaction);
    if strings_eq(&nav.fingerprint, &current) {
        return false;
    }
    nav.focused = 0;
    let mut answers: Vec<Vec<usize>> = Vec::new();
    let mut custom: Vec<Option<String>> = Vec::new();
    let mut i: usize = 0;
    while i < question_count
        invariant
            i <= question_count,
            answers_view(answers@) == Seq::new(i as nat, |k: int| Seq::<usize>::empty()),
            customs_view(custom@) == Seq::new(i as nat, |k: int| None::<Seq<char>>),
        decreases question_count - i,
    {
        let ghost a0 = answers_view(answers@);
        let ghost c0 = customs_view(custom@);
        let e: Vec<usize> = Vec::new();
        answers.push(e);
        custom.push(None);
        assert(answers_view(answers@) =~= a0.push(Seq::<usize>::empty()));
        assert(customs_view(custom@) =~= c0.push(None::<Seq<char>>));
        i = i + 1;
        assert(answers_view(answers@) =~= Seq::new(i as nat, |k: int| Seq::<usize>::empty()));
        assert(customs_view(custom@) =~= Seq::new(i as nat, |k: int| None::<Seq<char>>));
    }
    nav.answers = answers;
    nav.focused_option = 0;
    nav.is_typing = false;
    nav.typing = TextAreaState::default();
    nav.custom_answers = custom;
    nav.scroll_y = 0;
    nav.fingerprint = current;
    proof {
        assert(nav@ =~= fresh_view(question_count as nat));
        assert(utf8_len(Seq::<char>::empty()) == 0);
    }
    true
}

/// The input reported that the cursor is already on its first row: the
/// keyboard goes back to the option list, onto the last preset option.
pub fn leave_typing_upwards(nav: &mut AskUserNav, pending: Option<&AskUser>)
    requires
        nav_wf(old(nav)@, pending),
    ensures
        final(nav)@ == (AskNavView {
            is_typing: false,
            focused_option: if has_question(pending, old(nav).focused as int) {
                let c = option_count(pending, old(nav).focused as int);
                if c > 0 { c - 1 } else { 0 }
            } else {
                old(nav)@.focused_option
            },
            ..old(nav)@
        }),
        nav_wf(final(nav)@, pending),
        final(nav).scroll_y == old(nav).scroll_y,
        final(nav).fingerprint@ == old(nav).fingerprint@,
{
    let ghost s = nav@;
    nav.is_typing = false;
    match focused_question(pending, nav.focused) {
        Some(q) => {
            let c = q.options.len();
            nav.focused_option = if c > 0 { c - 1 } else { 0 };
        },
        None => {},
    }
    proof {
        assert(nav@ =~= (AskNavView {
            is_typing: false,
            focused_option: if has_question(pending, s.focused) {
                let c = option_count(pending, s.focused);
                if c > 0 { c - 1 } else { 0 }
            } else {
                s.focused_option
            },
            ..s
        }));
    }
}

} // verus!

verus! {

/// Enter sends answers only for an actual request whose listed questions are
/// all answered, carry custom text or have no options.
pub proof fn law_submit_only_when_answered(s: AskNavView, pending: Option<&AskUser>, key: KeyPress)
    ensures
        ask_user_step(s, pending, key).1 is Submit ==> all_answered(s, pending) && pending is Some,
{
}

/// A key the panel does not take leaves its state as it was.
pub proof fn law_ignored_key_changes_nothing(s: AskNavView, pending: Option<&AskUser>, key: KeyPress)
    ensures
        ask_user_step(s, pending, key).1 is Ignored ==> ask_user_step(s, pending, key).0 == s,
{
}

/// Outside the input, Tab then BackTab brings the focus back to the same question.
pub proof fn law_tab_then_backtab_returns(s: AskNavView, pending: Option<&AskUser>)
    requires
        nav_wf(s, pending),
        !s.is_typing,
        question_count(pending) > 0,
    ensures
        ({
            let tab = KeyPress { code: KeyCode::Tab, ctrl: false, shift: false };
            let back = KeyPress { code: KeyCode::BackTab, ctrl: false, shift: false };
            let s1 = ask_user_step(s, pending, tab).0;
            ask_user_step(s1, pending, back).0.focused == s.focused
        }),
{
    let n = question_count(pending);
    let q = s.focused;
    if q + 1 < n {
        assert((q + 1) % n == q + 1) by (nonlinear_arith) requires 0 <= q, q + 1 < n;
        assert((q + 1 + n - 1) % n == q) by (nonlinear_arith) requires 0 <= q, q + 1 < n;
    } else {
        assert((q + 1) % n == 0) by (nonlinear_arith) requires q + 1 == n, n > 0;
        assert((0 + n - 1) % n == n - 1) by (nonlinear_arith) requires n > 0;
    }
}

/// Esc in the input drops the typed text: the answers and custom texts stay.
pub proof fn law_cancel_typing_keeps_answers(s: AskNavView, pending: Option<&AskUser>)
    requires
        s.is_typing,
    ensures
        ({
            let r = ask_user_step(s, pending, KeyPress { code: KeyCode::Esc, ctrl: false, shift: false });
            &&& r.0.custom == s.custom
            &&& r.0.answers == s.answers
            &&& !r.0.is_typing
            &&& r.1 is Consumed
        }),
{
}

/// Enter in the input keeps the trimmed text as the custom answer of the
/// focused question, unless it is blank, and gives the keyboard back.
pub proof fn law_commit_typing_records_trimmed_text(s: AskNavView, pending: Option<&AskUser>)
    requires
        nav_wf(s, pending),
        s.is_typing,
    ensures
        ({
            let r = ask_user_step(s, pending, KeyPress { code: KeyCode::Enter, ctrl: false, shift: false }).0;
            &&& !r.is_typing
            &&& r.answers == s.answers
            &&& (trim(s.typing).len() > 0 ==> custom_text(r.custom, s.focused) == trim(s.typing)
                    && r.custom[s.focused] is Some)
            &&& (trim(s.typing).len() == 0 ==> r.custom == s.custom)
        }),
{
}

/// A single-select question answered with custom text sends that text,
/// whatever option is chosen.
pub proof fn law_custom_text_wins_single_select(q: Question, sel: Seq<usize>, t: Seq<char>)
    requires
        !q.multi_select,
    ensures
        answer_for(q, sel, Some(t)) == AnswerView::Text(t),
{
}

} // verus!
