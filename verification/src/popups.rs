//! The popup layer: which popup is open, what closing it clears, and the
//! keys of the confirmation and approval popups.
use vstd::prelude::*;
use crate::keys::{KeyCode, KeyPress};

verus! {

/// The popups of the UI.
#[derive(Debug, Clone, Copy, PartialEq, Eq, Structural)]
pub enum PopupKind {
    Hitl,
    AskUser,
    Rewind,
    OAuth,
    Confirm,
    Download,
    ModelQuickSwitch,
}

/// A store that closing a popup resets.
#[derive(Debug, Clone, Copy, PartialEq, Eq, Structural)]
pub enum PayloadSlot {
    HitlPending,
    HitlRequestId,
    AskUserPending,
    AskUserRequestId,
    RewindBudgetState,
    RewindTargetText,
    RewindQueryError,
    OAuthInfo,
    ConfirmPayload,
    DownloadProgress,
}

/// The stores a popup's closing resets (the rewind candidates stay, and the
/// model quick switch has none).
pub open spec fn slots_of(kind: PopupKind) -> Seq<PayloadSlot> {
    match kind {
        PopupKind::Hitl => seq![PayloadSlot::HitlPending, PayloadSlot::HitlRequestId],
        PopupKind::AskUser => seq![PayloadSlot::AskUserPending, PayloadSlot::AskUserRequestId],
        PopupKind::Rewind => seq![PayloadSlot::RewindBudgetState, PayloadSlot::RewindTargetText, PayloadSlot::RewindQueryError],
        PopupKind::OAuth => seq![PayloadSlot::OAuthInfo],
        PopupKind::Confirm => seq![PayloadSlot::ConfirmPayload],
        PopupKind::Download => seq![PayloadSlot::DownloadProgress],
        PopupKind::ModelQuickSwitch => Seq::empty(),
    }
}

/// The stores to reset when a popup of this kind closes.
pub fn payload_slots(kind: PopupKind) -> (r: Vec<PayloadSlot>)
    ensures
        r@ == slots_of(kind),
{
    let mut v: Vec<PayloadSlot> = Vec::new();
    match kind {
        PopupKind::Hitl => { v.push(PayloadSlot::HitlPending); v.push(PayloadSlot::HitlRequestId); },
        PopupKind::AskUser => { v.push(PayloadSlot::AskUserPending); v.push(PayloadSlot::AskUserRequestId); },
        PopupKind::Rewind => {
            v.push(PayloadSlot::RewindBudgetState);
            v.push(PayloadSlot::RewindTargetText);
            v.push(PayloadSlot::RewindQueryError);
        },
        PopupKind::OAuth => { v.push(PayloadSlot::OAuthInfo); },
        PopupKind::Confirm => { v.push(PayloadSlot::ConfirmPayload); },
        PopupKind::Download => { v.push(PayloadSlot::DownloadProgress); },
        PopupKind::ModelQuickSwitch => {},
    }
    assert(v@ =~= slots_of(kind));
    v
}

/// The popup layer: at most one popup is open.
#[derive(Debug)]
pub struct PopupLayer {
    pub kind: Option<PopupKind>,
}

/// Opens a popup, replacing the one that was open.
pub fn open_popup(layer: &mut PopupLayer, kind: PopupKind)
    ensures
        final(layer).kind == Some(kind),
{
    layer.kind = Some(kind);
}

/// Closes the open popup. Returns the kind that was open and the stores to
/// reset for it (none when nothing was open).
pub fn close_popup(layer: &mut PopupLayer) -> (r: (Option<PopupKind>, Vec<PayloadSlot>))
    ensures
        final(layer).kind is None,
        r.0 == old(layer).kind,
        r.1@ == match old(layer).kind { Some(k) => slots_of(k), None => Seq::empty() },
{
    let prev = layer.kind;
    layer.kind = None;
    match prev {
        Some(k) => (prev, payload_slots(k)),
        None => (prev, Vec::new()),
    }
}

/// Whether a popup is open.
pub fn is_popup_active(layer: &PopupLayer) -> (r: bool)
    ensures
        r == (layer.kind is Some),
{
    layer.kind.is_some()
}

/// What a confirmation asks for.
#[derive(Debug, Clone)]
pub enum ConfirmAction {
    /// Load another conversation.
    ThreadSwitch(String),
    /// Reject the pending questions.
    RejectAskUser,
}

/// What a key on a popup asks of the host.
#[derive(Debug)]
pub enum PopupKeyOutcome<A> {
    /// The key is not for the popup.
    Ignored,
    /// Close the popup, carrying out this action first if there is one.
    Close(Option<A>),
}

/// Keys of the confirmation popup: plain Enter carries out the pending
/// action and closes, plain Esc closes without it.
pub fn confirm_popup_on_key(key: KeyPress, pending: Option<ConfirmAction>) -> (r: PopupKeyOutcome<ConfirmAction>)
    ensures
        (key.code == KeyCode::Enter && !key.ctrl && !key.shift) ==> r == PopupKeyOutcome::<ConfirmAction>::Close(pending),
        (key.code == KeyCode::Esc && !key.ctrl && !key.shift) ==> r == PopupKeyOutcome::<ConfirmAction>::Close(None),
        !((key.code == KeyCode::Enter || key.code == KeyCode::Esc) && !key.ctrl && !key.shift) ==> r is Ignored,
{
    if key.ctrl || key.shift {
        return PopupKeyOutcome::Ignored;
    }
    match key.code {
        KeyCode::Enter => PopupKeyOutcome::Close(pending),
        KeyCode::Esc => PopupKeyOutcome::Close(None),
        _ => PopupKeyOutcome::Ignored,
    }
}

/// The answer to a tool-approval request.
#[derive(Debug, Clone)]
pub enum HitlResponse {
    Approve { request_id_str: String },
    Reject { request_id_str: String },
}

/// Keys of the tool-approval popup: plain Enter approves, plain Esc
/// rejects; either closes the popup, and an answer is sent only when the
/// request id is known.
pub fn hitl_popup_on_key(key: KeyPress, request_id: Option<String>) -> (r: PopupKeyOutcome<HitlResponse>)
    ensures
        (key.code == KeyCode::Enter && !key.ctrl && !key.shift) ==> (match r {
            PopupKeyOutcome::Close(Some(HitlResponse::Approve { request_id_str })) =>
                request_id == Some(request_id_str),
            PopupKeyOutcome::Close(None) => request_id is None,
            _ => false,
        }),
        (key.code == KeyCode::Esc && !key.ctrl && !key.shift) ==> (match r {
            PopupKeyOutcome::Close(Some(HitlResponse::Reject { request_id_str })) =>
                request_id == Some(request_id_str),
            PopupKeyOutcome::Close(None) => request_id is None,
            _ => false,
        }),
        !((key.code == KeyCode::Enter || key.code == KeyCode::Esc) && !key.ctrl && !key.shift) ==> r is Ignored,
{
    if key.ctrl || key.shift {
        return PopupKeyOutcome::Ignored;
    }
    match key.code {
        KeyCode::Enter => match request_id {
            Some(id) => PopupKeyOutcome::Close(Some(HitlResponse::Approve { request_id_str: id })),
            None => PopupKeyOutcome::Close(None),
        },
        KeyCode::Esc => match request_id {
            Some(id) => PopupKeyOutcome::Close(Some(HitlResponse::Reject { request_id_str: id })),
            None => PopupKeyOutcome::Close(None),
        },
        _ => PopupKeyOutcome::Ignored,
    }
}

/// What a key on the authorisation popup asks of the host.
#[derive(Debug, Clone, Copy, PartialEq, Eq, Structural)]
pub enum OAuthKeyOutcome {
    /// The key is not for the popup.
    Ignored,
    /// The key was used; nothing to do.
    Consumed,
    /// Open the authorisation URL in the browser.
    OpenUrl,
    /// Close the popup.
    Close,
}

/// Keys of the authorisation popup: Ctrl+O opens the URL (when a request is
/// pending), plain Enter closes, plain Backspace and typed characters are
/// swallowed, everything else is left to the host (Esc among them).
pub fn oauth_popup_on_key(key: KeyPress, has_request: bool) -> (r: OAuthKeyOutcome)
    ensures
        r == if key.ctrl && !key.shift && (key.code == KeyCode::Char('o') || key.code == KeyCode::Char('O')) {
            if has_request { OAuthKeyOutcome::OpenUrl } else { OAuthKeyOutcome::Consumed }
        } else if !key.ctrl && !key.shift && key.code == KeyCode::Enter {
            OAuthKeyOutcome::Close
        } else if !key.ctrl && !key.shift && key.code == KeyCode::Backspace {
            OAuthKeyOutcome::Consumed
        } else if !key.ctrl && key.code is Char {
            OAuthKeyOutcome::Consumed
        } else {
            OAuthKeyOutcome::Ignored
        },
{
    match key.code {
        KeyCode::Char(c) => {
            if key.ctrl {
                if !key.shift && (c == 'o' || c == 'O') {
                    if has_request { OAuthKeyOutcome::OpenUrl } else { OAuthKeyOutcome::Consumed }
                } else {
                    OAuthKeyOutcome::Ignored
                }
            } else {
                OAuthKeyOutcome::Consumed
            }
        },
        KeyCode::Enter => if !key.ctrl && !key.shift { OAuthKeyOutcome::Close } else { OAuthKeyOutcome::Ignored },
        KeyCode::Backspace => if !key.ctrl && !key.shift { OAuthKeyOutcome::Consumed } else { OAuthKeyOutcome::Ignored },
        _ => OAuthKeyOutcome::Ignored,
    }
}

/// Characters of the authorisation URL shown before it is cut.
pub const OAUTH_URL_SHOWN: usize = 44;

/// The URL as the popup shows it: cut after 44 characters, with "..." added.
pub open spec fn shown_url(url: Seq<char>) -> Seq<char> {
    if url.len() > OAUTH_URL_SHOWN { url.take(OAUTH_URL_SHOWN as int) + "..."@ } else { url }
}

/// The authorisation URL as the popup shows it.
pub fn oauth_url_display(url: &str) -> (r: String)
    ensures
        r@ == shown_url(url@),
{
    let chars = crate::text::chars_of(url);
    if chars.len() > OAUTH_URL_SHOWN {
        let empty: Vec<char> = Vec::new();
        let head = crate::text::splice(&chars, OAUTH_URL_SHOWN, chars.len(), &empty);
        let mut r = crate::text::string_from_chars(head.as_slice());
        crate::text::append_str(&mut r, "...");
        proof { assert(head@ =~= url@.take(OAUTH_URL_SHOWN as int)); }
        r
    } else {
        url.to_string()
    }
}

} // verus!
