//! Rewinding a conversation: the popup that picks the message, and what its
//! answer asks of the session.
use vstd::prelude::*;
use crate::keys::KeyPress;
use crate::list_nav::{classify_list_nav, list_nav_of, next_sel, next_selection, prev_sel, previous_selection, ListNavAction};
use crate::text::str_eq;

verus! {

/// The user's answer in the rewind popup.
#[derive(Debug, Clone)]
pub enum RewindAction {
    /// Go back to `target_message_id`; `revert_files` also undoes file changes.
    Confirm { target_message_id: String, revert_files: bool },
    /// The user cancelled.
    Cancel,
}

/// Which list of the popup has the keyboard.
#[derive(Debug, Clone, Copy, PartialEq, Eq, Structural)]
pub enum RewindView {
    Messages,
    Files,
}

/// The first `max` characters, with "…" appended when something was cut.
pub open spec fn truncated(s: Seq<char>, max: int) -> Seq<char> {
    if s.len() <= max { s } else { s.take(max) + seq!['…'] }
}

/// Shortens a text to `max` characters, marking the cut with "…".
pub fn truncate_str(s: &str, max: usize) -> (r: String)
    ensures
        r@ == truncated(s@, max as int),
{
    let chars = crate::text::chars_of(s);
    if chars.len() <= max {
        s.to_string()
    } else {
        let mut out = String::new();
        let mut i: usize = 0;
        while i < max
            invariant
                chars@ == s@,
                max < chars@.len(),
                i <= max,
                out@ == chars@.take(i as int),
            decreases max - i,
        {
            crate::text::push_char(&mut out, chars[i]);
            assert(chars@.take(i + 1) =~= chars@.take(i as int).push(chars@[i as int]));
            i = i + 1;
        }
        crate::text::push_char(&mut out, '…');
        assert(out@ =~= s@.take(max as int) + seq!['…']);
        out
    }
}

/// One-letter tag of a message role.
pub open spec fn role_tag(role: Seq<char>) -> Seq<char> {
    if role == "user"@ {
        "U"@
    } else if role == "assistant"@ {
        "A"@
    } else if role == "system"@ {
        "S"@
    } else if role == "tool"@ {
        "T"@
    } else {
        "?"@
    }
}

/// The one-letter tag of a message role ("?" for unknown roles).
pub fn role_display(role: &str) -> (r: &'static str)
    ensures
        r@ == role_tag(role@),
{
    if str_eq(role, "user") {
        "U"
    } else if str_eq(role, "assistant") {
        "A"
    } else if str_eq(role, "system") {
        "S"
    } else if str_eq(role, "tool") {
        "T"
    } else {
        "?"
    }
}

/// A message that can be rewound to.
#[derive(Debug, Clone)]
pub struct RewindMessage {
    pub id: String,
    pub role: String,
    pub preview: String,
}

/// A file change that rewinding undoes.
#[derive(Debug, Clone)]
pub struct RewindFileChange {
    pub path: String,
    pub change_type: String,
}

/// What rewinding would undo.
#[derive(Debug, Clone)]
pub struct RewindPreview {
    pub messages: Vec<RewindMessage>,
    pub files: Vec<RewindFileChange>,
}

/// State of the rewind popup between key presses.
#[derive(Debug)]
pub struct RewindPopupState {
    pub view: RewindView,
    pub msg_sel: usize,
    pub file_sel: usize,
}

/// What a key in the rewind popup asks of the host.
#[derive(Debug)]
pub enum RewindOutcome {
    /// The key is not for the popup.
    Ignored,
    /// The key was used.
    Consumed,
    /// Close the popup, sending this answer first if there is one.
    Close(Option<RewindAction>),
}

pub open spec fn preview_counts(preview: Option<&RewindPreview>) -> (int, int) {
    match preview {
        Some(p) => (p.messages@.len() as int, p.files@.len() as int),
        None => (0, 0),
    }
}

/// The id of the highlighted message, or the empty text.
pub open spec fn selected_message_id(preview: Option<&RewindPreview>, sel: int) -> Seq<char> {
    match preview {
        Some(p) => if 0 <= sel < p.messages@.len() { p.messages@[sel].id@ } else { Seq::empty() },
        None => Seq::empty(),
    }
}

/// Handles a key in the rewind popup: Tab/BackTab switch lists, Up/Down move
/// in the current list, Enter rewinds to the highlighted message (with its
/// file changes) and closes, Esc closes.
pub fn rewind_popup_on_key(st: &mut RewindPopupState, preview: Option<&RewindPreview>, key: KeyPress) -> (r: RewindOutcome)
    ensures
        match list_nav_of(key) {
            Some(ListNavAction::CycleForward) | Some(ListNavAction::CycleBackward) =>
                final(st).view == (if old(st).view == RewindView::Messages { RewindView::Files } else { RewindView::Messages })
                && final(st).msg_sel == old(st).msg_sel && final(st).file_sel == old(st).file_sel && r is Consumed,
            Some(ListNavAction::MoveUp) => final(st).view == old(st).view && r is Consumed
                && (if old(st).view == RewindView::Messages {
                    final(st).msg_sel as int == prev_sel(old(st).msg_sel as int) && final(st).file_sel == old(st).file_sel
                } else {
                    final(st).file_sel as int == prev_sel(old(st).file_sel as int) && final(st).msg_sel == old(st).msg_sel
                }),
            Some(ListNavAction::MoveDown) => final(st).view == old(st).view && r is Consumed
                && (if old(st).view == RewindView::Messages {
                    final(st).msg_sel as int == next_sel(old(st).msg_sel as int, preview_counts(preview).0)
                        && final(st).file_sel == old(st).file_sel
                } else {
                    final(st).file_sel as int == next_sel(old(st).file_sel as int, preview_counts(preview).1)
                        && final(st).msg_sel == old(st).msg_sel
                }),
            Some(ListNavAction::Confirm) => *final(st) == *old(st) && ({
                let id = selected_message_id(preview, old(st).msg_sel as int);
                if id.len() > 0 {
                    r matches RewindOutcome::Close(Some(RewindAction::Confirm { target_message_id, revert_files }))
                        && target_message_id@ == id && revert_files
                } else {
                    r matches RewindOutcome::Close(None)
                }
            }),
            Some(ListNavAction::Cancel) => *final(st) == *old(st) && r matches RewindOutcome::Close(None),
            None => *final(st) == *old(st) && r is Ignored,
        },
{
    let (msg_count, file_count) = match preview {
        Some(p) => (p.messages.len(), p.files.len()),
        None => (0, 0),
    };
    match classify_list_nav(key) {
        Some(ListNavAction::CycleForward) | Some(ListNavAction::CycleBackward) => {
            st.view = match st.view {
                RewindView::Messages => RewindView::Files,
                RewindView::Files => RewindView::Messages,
            };
            RewindOutcome::Consumed
        },
        Some(ListNavAction::MoveUp) => {
            match st.view {
                RewindView::Messages => { st.msg_sel = previous_selection(st.msg_sel); },
                RewindView::Files => { st.file_sel = previous_selection(st.file_sel); },
            }
            RewindOutcome::Consumed
        },
        Some(ListNavAction::MoveDown) => {
            match st.view {
                RewindView::Messages => { st.msg_sel = next_selection(st.msg_sel, msg_count); },
                RewindView::Files => { st.file_sel = next_selection(st.file_sel, file_count); },
            }
            RewindOutcome::Consumed
        },
        Some(ListNavAction::Confirm) => {
            let target: String = match preview {
                Some(p) => if st.msg_sel < p.messages.len() { p.messages[st.msg_sel].id.clone() } else { String::new() },
                None => String::new(),
            };
            if !target.as_str().is_empty() {
                RewindOutcome::Close(Some(RewindAction::Confirm { target_message_id: target, revert_files: true }))
            } else {
                RewindOutcome::Close(None)
            }
        },
        Some(ListNavAction::Cancel) => RewindOutcome::Close(None),
        None => RewindOutcome::Ignored,
    }
}

/// Rows of a list the popup shows: at most `limit`, and how many more there are.
pub fn visible_rows(total: usize, limit: usize) -> (r: (usize, usize))
    ensures
        r.0 == if total < limit { total } else { limit },
        r.0 + r.1 == total,
{
    if total < limit { (total, 0) } else { (limit, total - limit) }
}

/// Colour role of a file change.
#[derive(Debug, Clone, Copy, PartialEq, Eq, Structural)]
pub enum ChangeTone {
    Added,
    Deleted,
    Modified,
}

/// Colour role of a change type: added, deleted, anything else modified.
pub fn change_tone(change_type: &str) -> (r: ChangeTone)
    ensures
        r == if change_type@ == "added"@ { ChangeTone::Added } else if change_type@ == "deleted"@ { ChangeTone::Deleted } else { ChangeTone::Modified },
{
    if str_eq(change_type, "added") {
        ChangeTone::Added
    } else if str_eq(change_type, "deleted") {
        ChangeTone::Deleted
    } else {
        ChangeTone::Modified
    }
}

/// What the rewind consumer does with the next message of its channel.
#[derive(Debug)]
pub enum ConsumerStep {
    /// The channel closed: stop.
    Exit,
    /// Nothing to send (a cancel, or no session to rewind).
    Skip,
    /// Ask the session to run "/rewind" with these arguments.
    SendRewind { target_message_id: String, revert_files: bool },
}

/// Mathematical form of a consumer step.
pub enum StepView {
    Exit,
    Skip,
    Send(Seq<char>, bool),
}

/// What the consumer does with a message, given whether a session is open.
pub open spec fn step_view(msg: Option<RewindAction>, has_session: bool) -> StepView {
    match msg {
        None => StepView::Exit,
        Some(RewindAction::Cancel) => StepView::Skip,
        Some(RewindAction::Confirm { target_message_id, revert_files }) =>
            if has_session { StepView::Send(target_message_id@, revert_files) } else { StepView::Skip },
    }
}

pub open spec fn step_of(r: ConsumerStep) -> StepView {
    match r {
        ConsumerStep::Exit => StepView::Exit,
        ConsumerStep::Skip => StepView::Skip,
        ConsumerStep::SendRewind { target_message_id, revert_files } => StepView::Send(target_message_id@, revert_files),
    }
}

/// Decides what the rewind consumer does: a closed channel ends it, a cancel
/// or a confirm without a session sends nothing, a confirm sends the request.
pub fn rewind_consumer_step(msg: Option<RewindAction>, has_session: bool) -> (r: ConsumerStep)
    ensures
        step_of(r) == step_view(msg, has_session),
{
    match msg {
        None => ConsumerStep::Exit,
        Some(RewindAction::Cancel) => ConsumerStep::Skip,
        Some(RewindAction::Confirm { target_message_id, revert_files }) => {
            if has_session {
                ConsumerStep::SendRewind { target_message_id, revert_files }
            } else {
                ConsumerStep::Skip
            }
        },
    }
}

/// The requests the consumer sends for a stream of messages, handled one at
/// a time in arrival order (`sessions[i]`: whether a session is open when
/// message `i` arrives); a closed channel ends the stream.
pub open spec fn requests_sent(msgs: Seq<Option<RewindAction>>, sessions: Seq<bool>) -> Seq<(Seq<char>, bool)>
    decreases msgs.len(),
{
    if msgs.len() == 0 || sessions.len() == 0 {
        Seq::empty()
    } else {
        let rest = requests_sent(msgs.skip(1), sessions.skip(1));
        match step_view(msgs[0], sessions[0]) {
            StepView::Exit => Seq::empty(),
            StepView::Skip => rest,
            StepView::Send(t, rf) => seq![(t, rf)] + rest,
        }
    }
}

/// The confirmations of a stream before it closes, in order.
pub open spec fn confirms_before_close(msgs: Seq<Option<RewindAction>>) -> Seq<(Seq<char>, bool)>
    decreases msgs.len(),
{
    if msgs.len() == 0 {
        Seq::empty()
    } else {
        let rest = confirms_before_close(msgs.skip(1));
        match msgs[0] {
            None => Seq::empty(),
            Some(RewindAction::Cancel) => rest,
            Some(RewindAction::Confirm { target_message_id, revert_files }) => seq![(target_message_id@, revert_files)] + rest,
        }
    }
}

/// The arguments a rewind request carries.
pub open spec fn request_args(r: RewindRequest) -> (Seq<char>, bool) {
    (r.target_message_id@, r.revert_files)
}

/// Whether a request is the session's "/rewind" command.
pub open spec fn is_rewind_call(r: RewindRequest) -> bool {
    r.method@ == "session/execute-command"@ && r.command@ == "/rewind"@
}

/// The arguments of a run of rewind requests, in order.
pub open spec fn sent_args(sent: Seq<RewindRequest>) -> Seq<(Seq<char>, bool)> {
    sent.map_values(|r: RewindRequest| request_args(r))
}

/// Runs the rewind consumer over the messages it receives, in arrival order
/// (`None` stands for the channel closing or the shutdown signal, which end
/// it; `sessions[i]` tells whether a session is open when message `i`
/// arrives). Returns the requests it sends, in order: what `requests_sent`
/// describes. A failed request is only reported by the host; the loop goes on.
pub fn run_rewind_consumer(msgs: Vec<Option<RewindAction>>, sessions: &Vec<bool>) -> (sent: Vec<RewindRequest>)
    requires
        sessions@.len() == msgs@.len(),
    ensures
        sent_args(sent@) == requests_sent(msgs@, sessions@),
        forall|i: int| 0 <= i < sent@.len() ==> is_rewind_call(#[trigger] sent@[i]),
{
    let ghost all = msgs@;
    let ghost ss = sessions@;
    let mut rest = msgs;
    let mut sent: Vec<RewindRequest> = Vec::new();
    let mut i: usize = 0;
    let n: usize = rest.len();
    proof {
        assert(n == all.len());
        assert(all.skip(0) =~= all);
        assert(ss.skip(0) =~= ss);
        assert(sent_args(sent@) =~= Seq::<(Seq<char>, bool)>::empty());
    }
    while rest.len() > 0
        invariant
            all == msgs@,
            ss == sessions@,
            ss.len() == all.len(),
            all.len() <= usize::MAX,
            i + rest@.len() == all.len(),
            rest@ == all.skip(i as int),
            sent_args(sent@) + requests_sent(rest@, ss.skip(i as int))
                == requests_sent(all, ss),
            forall|k: int| 0 <= k < sent@.len() ==> is_rewind_call(#[trigger] sent@[k]),
        decreases rest@.len(),
    {
        let ghost before = sent_args(sent@);
        let ghost r0 = rest@;
        let m = rest.remove(0);
        let has = sessions[i];
        proof {
            assert(r0[0] == m);
            assert(ss.skip(i as int)[0] == ss[i as int]);
            assert(rest@ =~= r0.skip(1));
            assert(all.skip(i + 1) =~= r0.skip(1));
            assert(ss.skip(i + 1) =~= ss.skip(i as int).skip(1));
        }
        match rewind_consumer_step(m, has) {
            ConsumerStep::Exit => {
                proof {
                    assert(step_view(r0[0], ss.skip(i as int)[0]) is Exit);
                    assert(r0.len() > 0 && ss.skip(i as int).len() > 0);
                    assert(requests_sent(r0, ss.skip(i as int)) =~= Seq::<(Seq<char>, bool)>::empty());
                    assert(sent_args(sent@) + requests_sent(r0, ss.skip(i as int)) == requests_sent(all, ss));
                    assert(sent_args(sent@) + Seq::<(Seq<char>, bool)>::empty()
                        =~= sent_args(sent@));
                }
                return sent;
            },
            ConsumerStep::Skip => {},
            ConsumerStep::SendRewind { target_message_id, revert_files } => {
                let req = rewind_request(target_message_id.as_str(), revert_files);
                let ghost s0 = sent@;
                sent.push(req);
                proof {
                    assert forall|k: int| 0 <= k < sent@.len() implies is_rewind_call(#[trigger] sent@[k]) by {
                        if k < s0.len() {
                            assert(sent@[k] == s0[k]);
                        }
                    }
                    let tail = requests_sent(rest@, ss.skip(i + 1));
                    assert(sent_args(sent@)
                        =~= before.push((target_message_id@, revert_files)));
                    assert(before + (seq![(target_message_id@, revert_files)] + tail)
                        =~= before.push((target_message_id@, revert_files)) + tail);
                }
            },
        }
        i = i + 1;
    }
    proof {
        assert(sent_args(sent@) + Seq::<(Seq<char>, bool)>::empty()
            =~= sent_args(sent@));
    }
    sent
}

/// Messages are handled in arrival order: while a session is open, the
/// consumer sends exactly the confirmations that arrive before the channel
/// closes, in order (cancels send nothing, nothing after the close is
/// handled); with no session open it sends nothing.
pub proof fn law_consumer_handles_stream_in_order(msgs: Seq<Option<RewindAction>>, sessions: Seq<bool>)
    requires
        sessions.len() == msgs.len(),
    ensures
        (forall|i: int| 0 <= i < sessions.len() ==> sessions[i]) ==> requests_sent(msgs, sessions) == confirms_before_close(msgs),
        (forall|i: int| 0 <= i < sessions.len() ==> !sessions[i]) ==> requests_sent(msgs, sessions).len() == 0,
    decreases msgs.len(),
{
    if msgs.len() > 0 {
        law_consumer_handles_stream_in_order(msgs.skip(1), sessions.skip(1));
        assert(forall|i: int| 0 <= i < sessions.skip(1).len() ==> sessions.skip(1)[i] == sessions[i + 1]);
    }
}

/// The request that asks the session to rewind: the method, the command and
/// its arguments.
#[derive(Debug)]
pub struct RewindRequest {
    pub method: String,
    pub command: String,
    pub target_message_id: String,
    pub revert_files: bool,
}

/// The "/rewind" request for a confirmed rewind.
pub fn rewind_request(target_message_id: &str, revert_files: bool) -> (r: RewindRequest)
    ensures
        r.method@ == "session/execute-command"@,
        r.command@ == "/rewind"@,
        r.target_message_id@ == target_message_id@,
        r.revert_files == revert_files,
{
    RewindRequest {
        method: "session/execute-command".to_string(),
        command: "/rewind".to_string(),
        target_message_id: target_message_id.to_string(),
        revert_files,
    }
}

} // verus!
