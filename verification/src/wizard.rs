//! The first-run setup wizard: language, source of the settings, the
//! provider form (a list to browse and a form to edit) and the summary.
//! The wizard's state moves here; what needs the outside world (switching
//! the language, reading older settings, probing a URL, saving) is handed
//! to the host as a `WizardAction`.
use vstd::prelude::*;
use crate::keys::{KeyCode, KeyPress};
use crate::line_edit::{apply_field_key, apply_field_paste, field_key, field_paste, MAX_PASTE_CHARS};
use crate::wrap::trim;

verus! {

/// The steps of the wizard, in order.
#[derive(Debug, Clone, Copy, PartialEq, Eq, Structural)]
pub enum SetupStep {
    Language,
    Choose,
    Form,
    Done,
}

/// The two views of the form step.
#[derive(Debug, Clone, Copy, PartialEq, Eq, Structural)]
pub enum FormMode {
    Browse,
    Edit,
}

/// The rows of the provider form, top to bottom.
#[derive(Debug, Clone, Copy, PartialEq, Eq, Structural)]
pub enum FormField {
    ProviderType,
    ProviderId,
    BaseUrl,
    TestConnectivity,
    ApiKey,
    OpusModel,
    SonnetModel,
    HaikuModel,
    Confirm,
}

/// The row below a row (the last wraps to the first).
pub open spec fn field_after(f: FormField) -> FormField {
    match f {
        FormField::ProviderType => FormField::ProviderId,
        FormField::ProviderId => FormField::BaseUrl,
        FormField::BaseUrl => FormField::TestConnectivity,
        FormField::TestConnectivity => FormField::ApiKey,
        FormField::ApiKey => FormField::OpusModel,
        FormField::OpusModel => FormField::SonnetModel,
        FormField::SonnetModel => FormField::HaikuModel,
        FormField::HaikuModel => FormField::Confirm,
        FormField::Confirm => FormField::ProviderType,
    }
}

/// The row above a row (the first wraps to the last).
pub open spec fn field_before(f: FormField) -> FormField {
    match f {
        FormField::ProviderType => FormField::Confirm,
        FormField::ProviderId => FormField::ProviderType,
        FormField::BaseUrl => FormField::ProviderId,
        FormField::TestConnectivity => FormField::BaseUrl,
        FormField::ApiKey => FormField::TestConnectivity,
        FormField::OpusModel => FormField::ApiKey,
        FormField::SonnetModel => FormField::OpusModel,
        FormField::HaikuModel => FormField::SonnetModel,
        FormField::Confirm => FormField::HaikuModel,
    }
}

/// Rows that hold text.
pub open spec fn text_field(f: FormField) -> bool {
    match f {
        FormField::ProviderType | FormField::TestConnectivity | FormField::Confirm => false,
        _ => true,
    }
}

impl FormField {
    /// The row below.
    pub fn next(self) -> (r: FormField)
        ensures
            r == field_after(self),
    {
        match self {
            FormField::ProviderType => FormField::ProviderId,
            FormField::ProviderId => FormField::BaseUrl,
            FormField::BaseUrl => FormField::TestConnectivity,
            FormField::TestConnectivity => FormField::ApiKey,
            FormField::ApiKey => FormField::OpusModel,
            FormField::OpusModel => FormField::SonnetModel,
            FormField::SonnetModel => FormField::HaikuModel,
            FormField::HaikuModel => FormField::Confirm,
            FormField::Confirm => FormField::ProviderType,
        }
    }

    /// The row above.
    pub fn prev(self) -> (r: FormField)
        ensures
            r == field_before(self),
    {
        match self {
            FormField::ProviderType => FormField::Confirm,
            FormField::ProviderId => FormField::ProviderType,
            FormField::BaseUrl => FormField::ProviderId,
            FormField::TestConnectivity => FormField::BaseUrl,
            FormField::ApiKey => FormField::TestConnectivity,
            FormField::OpusModel => FormField::ApiKey,
            FormField::SonnetModel => FormField::OpusModel,
            FormField::HaikuModel => FormField::SonnetModel,
            FormField::Confirm => FormField::HaikuModel,
        }
    }

    /// Whether the row holds text.
    pub fn is_text_input(self) -> (r: bool)
        ensures
            r == text_field(self),
    {
        match self {
            FormField::ProviderType | FormField::TestConnectivity | FormField::Confirm => false,
            _ => true,
        }
    }
}

/// Moving down and back up (or up and back down) returns to the row, and
/// nine moves go round the form.
pub proof fn law_form_rows_cycle(f: FormField)
    ensures
        field_before(field_after(f)) == f,
        field_after(field_before(f)) == f,
        field_after(field_after(field_after(field_after(field_after(field_after(field_after(field_after(field_after(f))))))))) == f,
{
}

/// The kind of a provider.
#[derive(Debug, Clone, Copy, PartialEq, Eq, Structural)]
pub enum ProviderKind {
    Anthropic,
    OpenAi,
}

/// A provider being set up.
#[derive(Debug, Clone)]
pub struct WizardProvider {
    pub kind: ProviderKind,
    pub provider_id: String,
    pub base_url: String,
    pub api_key: String,
    pub opus_model: String,
    pub sonnet_model: String,
    pub haiku_model: String,
    /// Whether the provider is ticked for saving.
    pub selected: bool,
}

/// The text of a row of a provider (empty for rows without text).
pub open spec fn provider_field(p: WizardProvider, f: FormField) -> Seq<char> {
    match f {
        FormField::ProviderId => p.provider_id@,
        FormField::BaseUrl => p.base_url@,
        FormField::ApiKey => p.api_key@,
        FormField::OpusModel => p.opus_model@,
        FormField::SonnetModel => p.sonnet_model@,
        FormField::HaikuModel => p.haiku_model@,
        _ => Seq::empty(),
    }
}

/// `q` is `p` with the text of row `f` replaced by `v`.
pub open spec fn field_replaced(p: WizardProvider, q: WizardProvider, f: FormField, v: Seq<char>) -> bool {
    &&& q.kind == p.kind
    &&& q.selected == p.selected
    &&& forall|g: FormField| #[trigger] provider_field(q, g) == if g == f && text_field(f) { v } else { provider_field(p, g) }
}

/// A provider ready to be saved: an id, a key and all three model names,
/// none of them blank.
pub open spec fn provider_ready(p: WizardProvider) -> bool {
    &&& trim(p.provider_id@).len() > 0
    &&& trim(p.api_key@).len() > 0
    &&& trim(p.opus_model@).len() > 0
    &&& trim(p.sonnet_model@).len() > 0
    &&& trim(p.haiku_model@).len() > 0
}

/// A provider is ready to be saved exactly when its id, its API key and each
/// of the three model names (opus, sonnet, haiku) hold a character that is
/// not whitespace.
pub proof fn law_ready_needs_every_field(p: WizardProvider)
    ensures
        provider_ready(p) <==> {
            &&& exists|i: int| 0 <= i < p.provider_id@.len() && !crate::text::is_ws(#[trigger] p.provider_id@[i])
            &&& exists|i: int| 0 <= i < p.api_key@.len() && !crate::text::is_ws(#[trigger] p.api_key@[i])
            &&& exists|i: int| 0 <= i < p.opus_model@.len() && !crate::text::is_ws(#[trigger] p.opus_model@[i])
            &&& exists|i: int| 0 <= i < p.sonnet_model@.len() && !crate::text::is_ws(#[trigger] p.sonnet_model@[i])
            &&& exists|i: int| 0 <= i < p.haiku_model@.len() && !crate::text::is_ws(#[trigger] p.haiku_model@[i])
        },
{
    crate::wrap::lemma_trim_blank(p.provider_id@);
    crate::wrap::lemma_trim_blank(p.api_key@);
    crate::wrap::lemma_trim_blank(p.opus_model@);
    crate::wrap::lemma_trim_blank(p.sonnet_model@);
    crate::wrap::lemma_trim_blank(p.haiku_model@);
}

fn not_blank(s: &String) -> (r: bool)
    ensures
        r == (trim(s@).len() > 0),
{
    let chars = crate::text::chars_of(s.as_str());
    let t = crate::wrap::trimmed(&chars, 0, chars.len());
    proof { assert(chars@.subrange(0, chars@.len() as int) =~= chars@); }
    t.len() > 0
}

impl WizardProvider {
    /// The text of a row.
    pub fn field_value(&self, f: FormField) -> (r: String)
        ensures
            r@ == provider_field(*self, f),
    {
        match f {
            FormField::ProviderId => self.provider_id.clone(),
            FormField::BaseUrl => self.base_url.clone(),
            FormField::ApiKey => self.api_key.clone(),
            FormField::OpusModel => self.opus_model.clone(),
            FormField::SonnetModel => self.sonnet_model.clone(),
            FormField::HaikuModel => self.haiku_model.clone(),
            _ => String::new(),
        }
    }

    /// Replaces the text of a row (rows without text are left alone).
    pub fn set_field_value(&mut self, f: FormField, v: String)
        ensures
            field_replaced(*old(self), *final(self), f, v@),
    {
        match f {
            FormField::ProviderId => { self.provider_id = v; },
            FormField::BaseUrl => { self.base_url = v; },
            FormField::ApiKey => { self.api_key = v; },
            FormField::OpusModel => { self.opus_model = v; },
            FormField::SonnetModel => { self.sonnet_model = v; },
            FormField::HaikuModel => { self.haiku_model = v; },
            _ => {},
        }
    }

    /// Whether the provider can be saved.
    pub fn is_complete(&self) -> (r: bool)
        ensures
            r == provider_ready(*self),
    {
        not_blank(&self.provider_id) && not_blank(&self.api_key) && not_blank(&self.opus_model)
            && not_blank(&self.sonnet_model) && not_blank(&self.haiku_model)
    }

    /// Switches to the other kind of provider.
    pub fn cycle_kind(&mut self)
        ensures
            final(self).kind == (if old(self).kind == ProviderKind::Anthropic { ProviderKind::OpenAi } else { ProviderKind::Anthropic }),
            final(self).selected == old(self).selected,
            forall|g: FormField| #[trigger] provider_field(*final(self), g) == provider_field(*old(self), g),
    {
        self.kind = match self.kind {
            ProviderKind::Anthropic => ProviderKind::OpenAi,
            ProviderKind::OpenAi => ProviderKind::Anthropic,
        };
    }
}

/// Why the wizard refused to go on.
#[derive(Debug, Clone, Copy, PartialEq, Eq, Structural)]
pub enum WizardError {
    /// No usable provider was found in the older settings.
    MigrationFailed,
    /// Submitting needs at least one ticked provider with every field filled.
    NoCompleteProvider,
}

/// The state of the wizard.
#[derive(Debug)]
pub struct WizardState {
    pub step: SetupStep,
    pub language_cursor: usize,
    pub choose_cursor: usize,
    /// Position of the chosen source in the host's list of sources.
    pub source: usize,
    pub providers: Vec<WizardProvider>,
    pub active_provider: usize,
    /// Row of the provider list; one past the last provider is the submit row.
    pub browse_cursor: usize,
    pub form_mode: FormMode,
    pub form_focus: FormField,
    /// Cursor of the focused text row, in characters.
    pub edit_cursor_pos: usize,
    pub submit_error: Option<WizardError>,
    /// Outcome of the last connectivity probe: success and a message.
    pub connectivity_result: Option<(bool, String)>,
}

/// What the host has to do after a key.
#[derive(Debug, Clone, Copy, PartialEq, Eq, Structural)]
pub enum WizardAction {
    /// Nothing to do.
    Nothing,
    /// Switch the interface to language `i` of the host's list.
    SwitchLanguage(usize),
    /// Hide the wizard.
    Close,
    /// Read the older settings into the providers, then call `after_migration`.
    Migrate,
    /// Probe the active provider's base URL and store the outcome.
    TestConnectivity,
    /// Save the ticked providers, then hide the wizard.
    SaveAndClose,
}

/// The text of the focused row of the active provider (empty without one).
pub open spec fn raw_value(s: WizardState) -> Seq<char> {
    if s.active_provider < s.providers@.len() {
        provider_field(s.providers@[s.active_provider as int], s.form_focus)
    } else {
        Seq::empty()
    }
}

/// `t` is `s` with the focused row of the active provider set to `v` (no
/// change without an active provider), and the cursor at `cursor`.
pub open spec fn active_field_set(s: WizardState, t: WizardState, v: Seq<char>) -> bool {
    &&& t.providers@.len() == s.providers@.len()
    &&& forall|k: int| 0 <= k < s.providers@.len() && k != s.active_provider ==> t.providers@[k] == s.providers@[k]
    &&& s.active_provider < s.providers@.len() ==>
        field_replaced(s.providers@[s.active_provider as int], t.providers@[s.active_provider as int], s.form_focus, v)
    &&& t.step == s.step && t.language_cursor == s.language_cursor && t.choose_cursor == s.choose_cursor
    &&& t.source == s.source && t.active_provider == s.active_provider && t.browse_cursor == s.browse_cursor
    &&& t.form_mode == s.form_mode && t.form_focus == s.form_focus && t.submit_error == s.submit_error
    &&& t.connectivity_result == s.connectivity_result
}

/// Everything but the cursor of the text row is the same.
pub open spec fn same_but_cursor(s: WizardState, t: WizardState) -> bool {
    &&& t.providers@ == s.providers@
    &&& t.step == s.step && t.language_cursor == s.language_cursor && t.choose_cursor == s.choose_cursor
    &&& t.source == s.source && t.active_provider == s.active_provider && t.browse_cursor == s.browse_cursor
    &&& t.form_mode == s.form_mode && t.form_focus == s.form_focus && t.submit_error == s.submit_error
    &&& t.connectivity_result == s.connectivity_result
}

/// The text of the focused row of the active provider.
pub fn raw_field_value(st: &WizardState) -> (r: String)
    ensures
        r@ == raw_value(*st),
{
    if st.active_provider < st.providers.len() {
        st.providers[st.active_provider].field_value(st.form_focus)
    } else {
        String::new()
    }
}

/// Sets the focused row of the active provider (nothing without one).
pub fn set_active_field_value(st: &mut WizardState, v: String)
    ensures
        active_field_set(*old(st), *final(st), v@),
        final(st).edit_cursor_pos == old(st).edit_cursor_pos,
{
    let i = st.active_provider;
    if i < st.providers.len() {
        let mut p = st.providers.remove(i);
        let ghost p0 = p;
        p.set_field_value(st.form_focus, v);
        st.providers.insert(i, p);
        proof {
            assert forall|k: int| 0 <= k < old(st).providers@.len() && k != i implies
                st.providers@[k] == old(st).providers@[k] by {
                if k < i {
                    assert(st.providers@[k] == old(st).providers@.remove(i as int)[k]);
                } else {
                    assert(st.providers@[k] == old(st).providers@.remove(i as int)[k - 1]);
                }
            }
        }
    }
}

/// `t` is `s` with the kind of the active provider switched (no change
/// without an active provider).
pub open spec fn kind_cycled(s: WizardState, t: WizardState) -> bool {
    &&& t.providers@.len() == s.providers@.len()
    &&& forall|k: int| 0 <= k < s.providers@.len() && k != s.active_provider ==> t.providers@[k] == s.providers@[k]
    &&& s.active_provider < s.providers@.len() ==> ({
        let p = s.providers@[s.active_provider as int];
        let q = t.providers@[s.active_provider as int];
        &&& q.kind == (if p.kind == ProviderKind::Anthropic { ProviderKind::OpenAi } else { ProviderKind::Anthropic })
        &&& q.selected == p.selected
        &&& forall|g: FormField| #[trigger] provider_field(q, g) == provider_field(p, g)
    })
    &&& t == (WizardState { providers: t.providers, ..s })
}

/// Switches the kind of the active provider (nothing without one).
fn cycle_active_kind(st: &mut WizardState)
    ensures
        kind_cycled(*old(st), *final(st)),
{
    let i = st.active_provider;
    if i < st.providers.len() {
        let mut p = st.providers.remove(i);
        p.cycle_kind();
        st.providers.insert(i, p);
        proof {
            assert forall|k: int| 0 <= k < old(st).providers@.len() && k != i implies
                st.providers@[k] == old(st).providers@[k] by {
                if k < i {
                    assert(st.providers@[k] == old(st).providers@.remove(i as int)[k]);
                } else {
                    assert(st.providers@[k] == old(st).providers@.remove(i as int)[k - 1]);
                }
            }
        }
    }
}

/// One place up in a ring of `n` (the top wraps to the bottom).
pub open spec fn cycle_back(c: usize, n: usize) -> usize {
    if c == 0 { (n - 1) as usize } else { (c - 1) as usize }
}

/// One place down in a ring of `n` (the bottom wraps to the top).
pub open spec fn cycle_on(c: usize, n: usize) -> usize {
    if c + 1 == n { 0 } else { (c + 1) as usize }
}

/// What `language_on_key` does, as a relation between the state before and after.
pub open spec fn language_step(s: WizardState, t: WizardState, key: KeyPress, language_count: usize, r: WizardAction) -> bool {
    &&& (t.language_cursor < language_count)
    &&& (key.code == KeyCode::Up ==> r == WizardAction::Nothing && t == (WizardState {
        language_cursor: cycle_back(s.language_cursor, language_count), ..s }))
    &&& (key.code == KeyCode::Down ==> r == WizardAction::Nothing && t == (WizardState {
        language_cursor: cycle_on(s.language_cursor, language_count), ..s }))
    &&& ((key.code == KeyCode::Enter || key.code == KeyCode::Char(' ')) ==>
        r == WizardAction::SwitchLanguage(s.language_cursor)
        && t == (WizardState { step: SetupStep::Choose, choose_cursor: 0, ..s }))
    &&& (key.code == KeyCode::Esc ==> r == WizardAction::Close && t == s)
    &&& (!(key.code == KeyCode::Up || key.code == KeyCode::Down || key.code == KeyCode::Enter
        || key.code == KeyCode::Char(' ') || key.code == KeyCode::Esc) ==> r == WizardAction::Nothing && t == s)
}

/// Keys of the language step: Up/Down move round the `language_count`
/// languages, Enter or Space picks one and goes on, Esc leaves the wizard.
pub fn language_on_key(st: &mut WizardState, key: KeyPress, language_count: usize) -> (r: WizardAction)
    requires
        0 < language_count,
        old(st).language_cursor < language_count,
    ensures
        language_step(*old(st), *final(st), key, language_count, r),
{
    match key.code {
        KeyCode::Up => {
            st.language_cursor = if st.language_cursor == 0 { language_count - 1 } else { st.language_cursor - 1 };
            WizardAction::Nothing
        },
        KeyCode::Down => {
            st.language_cursor = if st.language_cursor + 1 == language_count { 0 } else { st.language_cursor + 1 };
            WizardAction::Nothing
        },
        KeyCode::Enter => {
            st.step = SetupStep::Choose;
            st.choose_cursor = 0;
            WizardAction::SwitchLanguage(st.language_cursor)
        },
        KeyCode::Char(c) => if c == ' ' {
            st.step = SetupStep::Choose;
            st.choose_cursor = 0;
            WizardAction::SwitchLanguage(st.language_cursor)
        } else {
            WizardAction::Nothing
        },
        KeyCode::Esc => WizardAction::Close,
        _ => WizardAction::Nothing,
    }
}

/// Opens the form step on its provider list.
fn enter_form(st: &mut WizardState)
    ensures
        *final(st) == (WizardState { step: SetupStep::Form, form_mode: FormMode::Browse, browse_cursor: 0,
            form_focus: FormField::ProviderType, ..*old(st) }),
{
    st.step = SetupStep::Form;
    st.form_mode = FormMode::Browse;
    st.browse_cursor = 0;
    st.form_focus = FormField::ProviderType;
}

/// What `choose_on_key` does, as a relation between the state before and after.
pub open spec fn choose_step(s: WizardState, t: WizardState, key: KeyPress, source_count: usize, migration_source: usize, fresh: WizardProvider, r: WizardAction) -> bool {
    &&& (t.choose_cursor < source_count)
    &&& (key.code == KeyCode::Up ==> r == WizardAction::Nothing && ({
        let c = cycle_back(s.choose_cursor, source_count);
        t == (WizardState { submit_error: None, choose_cursor: c, source: c, ..s })
    }))
    &&& (key.code == KeyCode::Down ==> r == WizardAction::Nothing && ({
        let c = cycle_on(s.choose_cursor, source_count);
        t == (WizardState { submit_error: None, choose_cursor: c, source: c, ..s })
    }))
    &&& ((key.code == KeyCode::Enter || key.code == KeyCode::Char(' ')) && s.source == migration_source ==>
        r == WizardAction::Migrate && t == (WizardState { submit_error: None, ..s }))
    &&& ((key.code == KeyCode::Enter || key.code == KeyCode::Char(' ')) && s.source != migration_source ==>
        r == WizardAction::Nothing && t.providers@ == seq![fresh] && t == (WizardState {
            submit_error: None, providers: t.providers, active_provider: 0, step: SetupStep::Form,
            form_mode: FormMode::Browse, browse_cursor: 0, form_focus: FormField::ProviderType, ..s }))
    &&& (key.code == KeyCode::Esc ==> r == WizardAction::Nothing
        && t == (WizardState { submit_error: None, step: SetupStep::Language, ..s }))
    &&& (!(key.code == KeyCode::Up || key.code == KeyCode::Down || key.code == KeyCode::Enter
        || key.code == KeyCode::Char(' ') || key.code == KeyCode::Esc) ==> r == WizardAction::Nothing && t == s)
}

/// Keys of the source step: Up/Down move round the `source_count` sources
/// (the chosen source follows the cursor), Enter or Space goes on: the
/// migration source asks the host to read the older settings, any other
/// source starts from the single provider `fresh`; Esc goes back.
pub fn choose_on_key(st: &mut WizardState, key: KeyPress, source_count: usize, migration_source: usize, fresh: WizardProvider) -> (r: WizardAction)
    requires
        0 < source_count,
        old(st).choose_cursor < source_count,
    ensures
        choose_step(*old(st), *final(st), key, source_count, migration_source, fresh, r),
{
    let go = match key.code {
        KeyCode::Enter => true,
        KeyCode::Char(c) => c == ' ',
        _ => false,
    };
    if go {
        st.submit_error = None;
        if st.source == migration_source {
            return WizardAction::Migrate;
        }
        let mut v: Vec<WizardProvider> = Vec::new();
        v.push(fresh);
        st.providers = v;
        st.active_provider = 0;
        enter_form(st);
        return WizardAction::Nothing;
    }
    match key.code {
        KeyCode::Up => {
            st.submit_error = None;
            st.choose_cursor = if st.choose_cursor == 0 { source_count - 1 } else { st.choose_cursor - 1 };
            st.source = st.choose_cursor;
        },
        KeyCode::Down => {
            st.submit_error = None;
            st.choose_cursor = if st.choose_cursor + 1 == source_count { 0 } else { st.choose_cursor + 1 };
            st.source = st.choose_cursor;
        },
        KeyCode::Esc => {
            st.submit_error = None;
            st.step = SetupStep::Language;
        },
        _ => {},
    }
    WizardAction::Nothing
}

/// After the host tried to read the older settings: on success the form
/// opens; on failure the wizard stays on the source step with the custom
/// source chosen, the cursor on top and the error shown.
pub fn after_migration(st: &mut WizardState, migrated: bool, custom_source: usize)
    ensures
        migrated ==> *final(st) == (WizardState { step: SetupStep::Form, form_mode: FormMode::Browse, browse_cursor: 0,
            form_focus: FormField::ProviderType, ..*old(st) }),
        !migrated ==> *final(st) == (WizardState { source: custom_source, choose_cursor: 0,
            submit_error: Some(WizardError::MigrationFailed), ..*old(st) }),
{
    if migrated {
        enter_form(st);
    } else {
        st.source = custom_source;
        st.choose_cursor = 0;
        st.submit_error = Some(WizardError::MigrationFailed);
    }
}

/// What `done_on_key` does, as a relation between the state before and after.
pub open spec fn done_step(s: WizardState, t: WizardState, key: KeyPress, r: WizardAction) -> bool {
    &&& (key.code == KeyCode::Enter ==> r == WizardAction::SaveAndClose && t == s)
    &&& (key.code == KeyCode::Esc ==> r == WizardAction::Nothing && t == (WizardState {
        submit_error: None, step: SetupStep::Form, form_mode: FormMode::Browse, ..s }))
    &&& (!(key.code == KeyCode::Enter || key.code == KeyCode::Esc) ==> r == WizardAction::Nothing && t == s)
}

/// Keys of the summary step: Enter saves and leaves, Esc goes back to the list.
pub fn done_on_key(st: &mut WizardState, key: KeyPress) -> (r: WizardAction)
    ensures
        done_step(*old(st), *final(st), key, r),
{
    match key.code {
        KeyCode::Enter => WizardAction::SaveAndClose,
        KeyCode::Esc => {
            st.submit_error = None;
            st.step = SetupStep::Form;
            st.form_mode = FormMode::Browse;
            WizardAction::Nothing
        },
        _ => WizardAction::Nothing,
    }
}

/// Whether some ticked provider is ready to be saved.
pub open spec fn has_ready_selection(ps: Seq<WizardProvider>) -> bool {
    exists|i: int| 0 <= i < ps.len() && (#[trigger] ps[i]).selected && provider_ready(ps[i])
}

fn any_ready_selected(ps: &Vec<WizardProvider>) -> (r: bool)
    ensures
        r == has_ready_selection(ps@),
{
    let mut i: usize = 0;
    while i < ps.len()
        invariant
            i <= ps@.len(),
            forall|k: int| 0 <= k < i ==> !((#[trigger] ps@[k]).selected && provider_ready(ps@[k])),
        decreases ps@.len() - i,
    {
        if ps[i].selected && ps[i].is_complete() {
            return true;
        }
        i = i + 1;
    }
    false
}

/// Ticks or unticks provider `i`.
fn toggle_selected(ps: &mut Vec<WizardProvider>, i: usize)
    requires
        i < old(ps)@.len(),
    ensures
        final(ps)@.len() == old(ps)@.len(),
        forall|k: int| 0 <= k < old(ps)@.len() && k != i ==> final(ps)@[k] == old(ps)@[k],
        final(ps)@[i as int] == (WizardProvider { selected: !old(ps)@[i as int].selected, ..old(ps)@[i as int] }),
{
    let mut p = ps.remove(i);
    p.selected = !p.selected;
    ps.insert(i, p);
    proof {
        assert forall|k: int| 0 <= k < old(ps)@.len() && k != i implies ps@[k] == old(ps)@[k] by {
            if k < i {
                assert(ps@[k] == old(ps)@.remove(i as int)[k]);
            } else {
                assert(ps@[k] == old(ps)@.remove(i as int)[k - 1]);
            }
        }
    }
}

/// What `browse_on_key` does, as a relation between the state before and after.
pub open spec fn browse_step(s: WizardState, t: WizardState, key: KeyPress) -> bool {
    &&& (key.code == KeyCode::Up ==> t == (WizardState { submit_error: None,
        browse_cursor: if s.browse_cursor > 0 { (s.browse_cursor - 1) as usize } else { 0 }, ..s }))
    &&& (key.code == KeyCode::Down ==> t == (WizardState { submit_error: None,
        browse_cursor: if s.browse_cursor < s.providers@.len() { (s.browse_cursor + 1) as usize }
            else { s.browse_cursor }, ..s }))
    &&& (key.code == KeyCode::Char(' ') ==> t == (WizardState { submit_error: None, providers: t.providers, ..s })
        && t.providers@.len() == s.providers@.len()
        && (forall|k: int| 0 <= k < s.providers@.len() ==> #[trigger] t.providers@[k] == if k == s.browse_cursor {
            WizardProvider { selected: !s.providers@[k].selected, ..s.providers@[k] }
        } else {
            s.providers@[k]
        }))
    &&& (key.code == KeyCode::Enter && s.browse_cursor < s.providers@.len() ==>
        t == (WizardState { submit_error: None, active_provider: s.browse_cursor, form_mode: FormMode::Edit,
            form_focus: FormField::ProviderType, edit_cursor_pos: 0, ..s }))
    &&& (key.code == KeyCode::Enter && s.browse_cursor >= s.providers@.len() ==> (
        if has_ready_selection(s.providers@) {
            t == (WizardState { submit_error: None, step: SetupStep::Done, ..s })
        } else {
            t == (WizardState { submit_error: Some(WizardError::NoCompleteProvider), ..s })
        }))
    &&& (key.code == KeyCode::Esc ==> t == (WizardState { submit_error: None, step: SetupStep::Choose, ..s }))
    &&& (!(key.code == KeyCode::Up || key.code == KeyCode::Down || key.code == KeyCode::Char(' ')
        || key.code == KeyCode::Enter || key.code == KeyCode::Esc) ==> t == s)
}

/// Keys of the provider list (rows: the providers, then the submit row):
/// Up/Down move, Space ticks the provider under the cursor, Enter edits it
/// (on the submit row: goes to the summary when a ticked provider is ready,
/// else shows the error), Esc goes back to the source step. Every key but
/// Enter on the submit row clears the error.
pub fn browse_on_key(st: &mut WizardState, key: KeyPress)
    ensures
        browse_step(*old(st), *final(st), key),
{
    match key.code {
        KeyCode::Up => {
            st.submit_error = None;
            if st.browse_cursor > 0 {
                st.browse_cursor = st.browse_cursor - 1;
            }
        },
        KeyCode::Down => {
            st.submit_error = None;
            if st.browse_cursor < st.providers.len() {
                st.browse_cursor = st.browse_cursor + 1;
            }
        },
        KeyCode::Char(c) => {
            if c == ' ' {
                st.submit_error = None;
                if st.browse_cursor < st.providers.len() {
                    toggle_selected(&mut st.providers, st.browse_cursor);
                }
            }
        },
        KeyCode::Enter => {
            if st.browse_cursor < st.providers.len() {
                st.submit_error = None;
                st.active_provider = st.browse_cursor;
                st.form_mode = FormMode::Edit;
                st.form_focus = FormField::ProviderType;
                st.edit_cursor_pos = 0;
            } else if any_ready_selected(&st.providers) {
                st.submit_error = None;
                st.step = SetupStep::Done;
            } else {
                st.submit_error = Some(WizardError::NoCompleteProvider);
            }
        },
        KeyCode::Esc => {
            st.submit_error = None;
            st.step = SetupStep::Choose;
        },
        _ => {},
    }
}

/// What `edit_on_key` does, as a relation between the state before and after.
pub open spec fn edit_step(s: WizardState, t: WizardState, key: KeyPress, r: WizardAction) -> bool {
    &&& ({
        let f = s.form_focus;
        let tk = field_key(raw_value(s), s.edit_cursor_pos as int, key);
        let has = s.active_provider < s.providers@.len();
        if text_field(f) && tk.0 {
            active_field_set(s, t, tk.1) && t.edit_cursor_pos as int == tk.2 && r == WizardAction::Nothing
        } else if key.code == KeyCode::Up || key.code == KeyCode::Down {
            let g = if key.code == KeyCode::Up { field_before(f) } else { field_after(f) };
            let moved = WizardState { form_focus: g, ..s };
            t == (WizardState { form_focus: g, edit_cursor_pos: raw_value(moved).len() as usize, ..s }) && r == WizardAction::Nothing
        } else if f == FormField::ProviderType && (((key.code == KeyCode::Left || key.code == KeyCode::Right) && !key.ctrl)
            || key.code == KeyCode::Char(' ')) {
            kind_cycled(s, t) && r == WizardAction::Nothing
        } else if key.code == KeyCode::Enter {
            if f == FormField::TestConnectivity {
                t == s && r == (if has { WizardAction::TestConnectivity } else { WizardAction::Nothing })
            } else if f == FormField::Confirm && has && provider_ready(s.providers@[s.active_provider as int]) {
                t == (WizardState { form_mode: FormMode::Browse, ..s }) && r == WizardAction::Nothing
            } else {
                t == s && r == WizardAction::Nothing
            }
        } else if key.code == KeyCode::Esc {
            t == (WizardState { form_mode: FormMode::Browse, ..s }) && r == WizardAction::Nothing
        } else {
            t == s && r == WizardAction::Nothing
        }
    })
}

/// Keys of the provider form. On a text row the line-editing keys change
/// the text (see `field_key`); otherwise Up/Down move between rows (the
/// cursor goes to the end of the new row's text), Left/Right without Ctrl
/// or Space on the type row switch the provider's kind, Enter probes the
/// connection on its row or, on the confirm row, goes back to the list when
/// the provider is ready, and Esc goes back to the list.
pub fn edit_on_key(st: &mut WizardState, key: KeyPress) -> (r: WizardAction)
    requires
        raw_value(*old(st)).len() < usize::MAX,
    ensures
        edit_step(*old(st), *final(st), key, r),
{
    if st.form_focus.is_text_input() {
        let mut val = raw_field_value(st);
        let mut cur = st.edit_cursor_pos;
        let handled = apply_field_key(&mut val, &mut cur, key);
        if handled {
            set_active_field_value(st, val);
            st.edit_cursor_pos = cur;
            return WizardAction::Nothing;
        }
    }
    match key.code {
        KeyCode::Up | KeyCode::Down => {
            st.form_focus = if key.code == KeyCode::Up { st.form_focus.prev() } else { st.form_focus.next() };
            let v = raw_field_value(st);
            st.edit_cursor_pos = crate::text::chars_of(v.as_str()).len();
            WizardAction::Nothing
        },
        KeyCode::Left | KeyCode::Right => {
            if !key.ctrl && st.form_focus == FormField::ProviderType {
                cycle_active_kind(st);
            }
            WizardAction::Nothing
        },
        KeyCode::Char(c) => {
            if c == ' ' && st.form_focus == FormField::ProviderType {
                cycle_active_kind(st);
            }
            WizardAction::Nothing
        },
        KeyCode::Enter => {
            let has = st.active_provider < st.providers.len();
            if st.form_focus == FormField::TestConnectivity {
                if has { WizardAction::TestConnectivity } else { WizardAction::Nothing }
            } else if st.form_focus == FormField::Confirm && has && st.providers[st.active_provider].is_complete() {
                st.form_mode = FormMode::Browse;
                WizardAction::Nothing
            } else {
                WizardAction::Nothing
            }
        },
        KeyCode::Esc => {
            st.form_mode = FormMode::Browse;
            WizardAction::Nothing
        },
        _ => WizardAction::Nothing,
    }
}

/// Pasted text goes into the focused text row of the form (at the cursor,
/// see `field_paste`); anywhere else it is not for the wizard. Returns
/// whether it was taken.
pub fn wizard_on_paste(st: &mut WizardState, text: &str) -> (taken: bool)
    requires
        raw_value(*old(st)).len() + MAX_PASTE_CHARS <= usize::MAX,
    ensures
        taken == (old(st).step == SetupStep::Form && old(st).form_mode == FormMode::Edit && text_field(old(st).form_focus)),
        !taken ==> *final(st) == *old(st),
        taken ==> ({
            let fp = field_paste(raw_value(*old(st)), old(st).edit_cursor_pos as int, text@);
            active_field_set(*old(st), *final(st), fp.0) && final(st).edit_cursor_pos as int == fp.1
        }),
{
    if st.step == SetupStep::Form && st.form_mode == FormMode::Edit && st.form_focus.is_text_input() {
        let mut val = raw_field_value(st);
        let mut cur = st.edit_cursor_pos;
        apply_field_paste(&mut val, &mut cur, text);
        set_active_field_value(st, val);
        st.edit_cursor_pos = cur;
        true
    } else {
        false
    }
}

/// A key for the wizard, sent to the handler of the current step (and, on
/// the form step, of the current view).
pub fn wizard_on_key(st: &mut WizardState, key: KeyPress, language_count: usize, source_count: usize,
    migration_source: usize, fresh: WizardProvider) -> (r: WizardAction)
    requires
        old(st).step == SetupStep::Language ==> 0 < language_count && old(st).language_cursor < language_count,
        old(st).step == SetupStep::Choose ==> 0 < source_count && old(st).choose_cursor < source_count,
        old(st).step == SetupStep::Form && old(st).form_mode == FormMode::Edit ==> raw_value(*old(st)).len() < usize::MAX,
    ensures
        old(st).step == SetupStep::Language ==> language_step(*old(st), *final(st), key, language_count, r),
        old(st).step == SetupStep::Choose ==> choose_step(*old(st), *final(st), key, source_count, migration_source, fresh, r),
        old(st).step == SetupStep::Form && old(st).form_mode == FormMode::Browse ==>
            browse_step(*old(st), *final(st), key) && r == WizardAction::Nothing,
        old(st).step == SetupStep::Form && old(st).form_mode == FormMode::Edit ==> edit_step(*old(st), *final(st), key, r),
        old(st).step == SetupStep::Done ==> done_step(*old(st), *final(st), key, r),
{
    match st.step {
        SetupStep::Language => language_on_key(st, key, language_count),
        SetupStep::Choose => choose_on_key(st, key, source_count, migration_source, fresh),
        SetupStep::Form => match st.form_mode {
            FormMode::Browse => {
                browse_on_key(st, key);
                WizardAction::Nothing
            },
            FormMode::Edit => edit_on_key(st, key),
        },
        SetupStep::Done => done_on_key(st, key),
    }
}

} // verus!
