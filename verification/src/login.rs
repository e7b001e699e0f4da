//! The provider panel: browsing providers, the edit form, and how an edit is
//! written into the settings.
use vstd::prelude::*;
use crate::config::{
    profile_for, ApiProtocol, AppConfig, PeriConfig, Profile, Profiles, ProviderConfig, ProviderModels,
};
use crate::keys::{KeyCode, KeyPress};
use crate::line_edit::{apply_field_key, apply_field_paste, field_key, field_paste, MAX_PASTE_CHARS};
use crate::profiles::{clone_string, find_provider, find_provider_exec, provider_ids};
use crate::text::str_eq;
use crate::snapshot::ProviderSummary;

verus! {

/// An OpenAI provider "p1" with a test key and base URL and the given protocol.
pub fn openai_provider_config(api: Option<ApiProtocol>) -> (r: ProviderConfig)
    ensures
        r.id@ == "p1"@,
        r.provider_type@ == "openai"@,
        r.api_key@ == "sk-test"@,
        r.base_url@ == "https://api.example.com/v1"@,
        r.api == api,
        r.models.fable@.len() == 0 && r.models.opus@.len() == 0 && r.models.sonnet@.len() == 0
            && r.models.haiku@.len() == 0,
{
    ProviderConfig {
        id: "p1".to_string(),
        provider_type: "openai".to_string(),
        api_key: "sk-test".to_string(),
        base_url: "https://api.example.com/v1".to_string(),
        api,
        models: ProviderModels::default(),
    }
}

/// Fields of the provider edit form, in order.
#[derive(Debug, Clone, Copy, PartialEq, Eq, Structural)]
pub enum LoginEditField {
    ProviderType,
    ProviderId,
    ApiKey,
    BaseUrl,
    OpusModel,
    SonnetModel,
    HaikuModel,
}

pub open spec fn field_next(f: LoginEditField) -> LoginEditField {
    match f {
        LoginEditField::ProviderType => LoginEditField::ProviderId,
        LoginEditField::ProviderId => LoginEditField::ApiKey,
        LoginEditField::ApiKey => LoginEditField::BaseUrl,
        LoginEditField::BaseUrl => LoginEditField::OpusModel,
        LoginEditField::OpusModel => LoginEditField::SonnetModel,
        LoginEditField::SonnetModel => LoginEditField::HaikuModel,
        LoginEditField::HaikuModel => LoginEditField::ProviderType,
    }
}

pub open spec fn field_prev(f: LoginEditField) -> LoginEditField {
    match f {
        LoginEditField::ProviderType => LoginEditField::HaikuModel,
        LoginEditField::ProviderId => LoginEditField::ProviderType,
        LoginEditField::ApiKey => LoginEditField::ProviderId,
        LoginEditField::BaseUrl => LoginEditField::ApiKey,
        LoginEditField::OpusModel => LoginEditField::BaseUrl,
        LoginEditField::SonnetModel => LoginEditField::OpusModel,
        LoginEditField::HaikuModel => LoginEditField::SonnetModel,
    }
}

impl LoginEditField {
    /// The field below (wrapping to the first).
    pub fn next(self) -> (r: LoginEditField)
        ensures
            r == field_next(self),
    {
        match self {
            LoginEditField::ProviderType => LoginEditField::ProviderId,
            LoginEditField::ProviderId => LoginEditField::ApiKey,
            LoginEditField::ApiKey => LoginEditField::BaseUrl,
            LoginEditField::BaseUrl => LoginEditField::OpusModel,
            LoginEditField::OpusModel => LoginEditField::SonnetModel,
            LoginEditField::SonnetModel => LoginEditField::HaikuModel,
            LoginEditField::HaikuModel => LoginEditField::ProviderType,
        }
    }

    /// The field above (wrapping to the last).
    pub fn prev(self) -> (r: LoginEditField)
        ensures
            r == field_prev(self),
    {
        match self {
            LoginEditField::ProviderType => LoginEditField::HaikuModel,
            LoginEditField::ProviderId => LoginEditField::ProviderType,
            LoginEditField::ApiKey => LoginEditField::ProviderId,
            LoginEditField::BaseUrl => LoginEditField::ApiKey,
            LoginEditField::OpusModel => LoginEditField::BaseUrl,
            LoginEditField::SonnetModel => LoginEditField::OpusModel,
            LoginEditField::HaikuModel => LoginEditField::SonnetModel,
        }
    }

    /// The message key of the field's label.
    pub fn i18n_key(self) -> (r: &'static str)
        ensures
            r@ == match self {
                LoginEditField::ProviderType => "login-field-type"@,
                LoginEditField::ProviderId => "login-field-name"@,
                LoginEditField::ApiKey => "login-field-api-key"@,
                LoginEditField::BaseUrl => "login-field-base-url"@,
                LoginEditField::OpusModel => "login-field-opus-model"@,
                LoginEditField::SonnetModel => "login-field-sonnet-model"@,
                LoginEditField::HaikuModel => "login-field-haiku-model"@,
            },
    {
        match self {
            LoginEditField::ProviderType => "login-field-type",
            LoginEditField::ProviderId => "login-field-name",
            LoginEditField::ApiKey => "login-field-api-key",
            LoginEditField::BaseUrl => "login-field-base-url",
            LoginEditField::OpusModel => "login-field-opus-model",
            LoginEditField::SonnetModel => "login-field-sonnet-model",
            LoginEditField::HaikuModel => "login-field-haiku-model",
        }
    }
}

/// Moving down then up, or up then down, lands on the same field.
pub proof fn law_field_next_prev_inverse(f: LoginEditField)
    ensures
        field_prev(field_next(f)) == f,
        field_next(field_prev(f)) == f,
{
}

/// Seven moves down go round the form once.
pub proof fn law_field_cycle_length(f: LoginEditField)
    ensures
        field_next(field_next(field_next(field_next(field_next(field_next(field_next(f))))))) == f,
        field_next(f) != f,
{
}

/// The working copy of a provider being edited.
#[derive(Debug, Clone)]
pub struct LoginEditState {
    /// The provider's id when editing started; empty for a new provider.
    pub original_provider_id: String,
    pub provider_type: String,
    pub provider_id: String,
    pub api_key: String,
    pub base_url: String,
    pub fable_model: String,
    pub opus_model: String,
    pub sonnet_model: String,
    pub haiku_model: String,
    pub api: ApiProtocol,
}

/// The protocol stored for a provider: none for Anthropic providers.
pub open spec fn effective_api_of(provider_type: Seq<char>, api: ApiProtocol) -> Option<ApiProtocol> {
    if provider_type == "anthropic"@ { None } else { Some(api) }
}

impl LoginEditState {
    /// The form for an existing provider (an unset protocol reads as chat completions).
    pub fn from_provider_config(config: &ProviderConfig) -> (r: LoginEditState)
        ensures
            r.original_provider_id@ == config.id@,
            r.provider_type@ == config.provider_type@,
            r.provider_id@ == config.id@,
            r.api_key@ == config.api_key@,
            r.base_url@ == config.base_url@,
            r.fable_model@ == config.models.fable@,
            r.opus_model@ == config.models.opus@,
            r.sonnet_model@ == config.models.sonnet@,
            r.haiku_model@ == config.models.haiku@,
            r.api == match config.api { Some(a) => a, None => ApiProtocol::ChatCompletions },
    {
        LoginEditState {
            original_provider_id: clone_string(&config.id),
            provider_type: clone_string(&config.provider_type),
            provider_id: clone_string(&config.id),
            api_key: clone_string(&config.api_key),
            base_url: clone_string(&config.base_url),
            fable_model: clone_string(&config.models.fable),
            opus_model: clone_string(&config.models.opus),
            sonnet_model: clone_string(&config.models.sonnet),
            haiku_model: clone_string(&config.models.haiku),
            api: match config.api { Some(a) => a, None => ApiProtocol::ChatCompletions },
        }
    }

    /// The blank form for a new Anthropic provider.
    pub fn default_empty() -> (r: LoginEditState)
        ensures
            r.original_provider_id@.len() == 0,
            r.provider_type@ == "anthropic"@,
            r.provider_id@.len() == 0 && r.api_key@.len() == 0 && r.base_url@.len() == 0,
            r.fable_model@.len() == 0 && r.opus_model@.len() == 0 && r.sonnet_model@.len() == 0
                && r.haiku_model@.len() == 0,
            r.api == ApiProtocol::ChatCompletions,
    {
        LoginEditState {
            original_provider_id: String::new(),
            provider_type: "anthropic".to_string(),
            provider_id: String::new(),
            api_key: String::new(),
            base_url: String::new(),
            fable_model: String::new(),
            opus_model: String::new(),
            sonnet_model: String::new(),
            haiku_model: String::new(),
            api: ApiProtocol::ChatCompletions,
        }
    }

    /// The protocol to store: none for Anthropic providers.
    pub fn effective_api(&self) -> (r: Option<ApiProtocol>)
        ensures
            r == effective_api_of(self.provider_type@, self.api),
    {
        if str_eq(self.provider_type.as_str(), "anthropic") { None } else { Some(self.api) }
    }

    /// Switches the protocol of an OpenAI-compatible provider; Anthropic
    /// providers keep chat completions.
    pub fn cycle_api_protocol(&mut self)
        ensures
            final(self).api == if old(self).provider_type@ == "anthropic"@ {
                old(self).api
            } else {
                match old(self).api {
                    ApiProtocol::ChatCompletions => ApiProtocol::Responses,
                    ApiProtocol::Responses => ApiProtocol::ChatCompletions,
                }
            },
            final(self).provider_type == old(self).provider_type,
            final(self).provider_id == old(self).provider_id,
    {
        if !str_eq(self.provider_type.as_str(), "anthropic") {
            self.api = match self.api {
                ApiProtocol::ChatCompletions => ApiProtocol::Responses,
                ApiProtocol::Responses => ApiProtocol::ChatCompletions,
            };
        }
    }

    /// Switches between Anthropic and OpenAI; becoming Anthropic resets the
    /// protocol to chat completions.
    pub fn toggle_provider_type(&mut self)
        ensures
            old(self).provider_type@ == "anthropic"@ ==> final(self).provider_type@ == "openai"@
                && final(self).api == old(self).api,
            old(self).provider_type@ != "anthropic"@ ==> final(self).provider_type@ == "anthropic"@
                && final(self).api == ApiProtocol::ChatCompletions,
            *final(self) == (LoginEditState { provider_type: final(self).provider_type, api: final(self).api, ..*old(self) }),
    {
        if str_eq(self.provider_type.as_str(), "anthropic") {
            self.provider_type = "openai".to_string();
        } else {
            self.provider_type = "anthropic".to_string();
            self.api = ApiProtocol::ChatCompletions;
        }
    }

    /// The text of a form field.
    pub fn field_value(&self, field: LoginEditField) -> (r: &String)
        ensures
            r@ == field_text(*self, field),
    {
        match field {
            LoginEditField::ProviderType => &self.provider_type,
            LoginEditField::ProviderId => &self.provider_id,
            LoginEditField::ApiKey => &self.api_key,
            LoginEditField::BaseUrl => &self.base_url,
            LoginEditField::OpusModel => &self.opus_model,
            LoginEditField::SonnetModel => &self.sonnet_model,
            LoginEditField::HaikuModel => &self.haiku_model,
        }
    }
}

/// The text of a form field.
pub open spec fn field_text(s: LoginEditState, f: LoginEditField) -> Seq<char> {
    match f {
        LoginEditField::ProviderType => s.provider_type@,
        LoginEditField::ProviderId => s.provider_id@,
        LoginEditField::ApiKey => s.api_key@,
        LoginEditField::BaseUrl => s.base_url@,
        LoginEditField::OpusModel => s.opus_model@,
        LoginEditField::SonnetModel => s.sonnet_model@,
        LoginEditField::HaikuModel => s.haiku_model@,
    }
}

/// Whether two forms agree on every field but `f`.
pub open spec fn same_but(a: LoginEditState, b: LoginEditState, f: LoginEditField) -> bool {
    &&& a.original_provider_id == b.original_provider_id
    &&& a.fable_model == b.fable_model
    &&& a.api == b.api
    &&& forall|g: LoginEditField| g != f ==> #[trigger] field_text(a, g) == field_text(b, g)
}

/// Applies a text-editing key to a text field of the form (the provider
/// type is a switch and takes none). Returns whether the key was used.
pub fn handle_login_text_input(state: &mut LoginEditState, field: LoginEditField, edit_cursor: &mut usize, key: KeyPress) -> (handled: bool)
    requires
        field_text(*old(state), field).len() < usize::MAX,
    ensures
        field == LoginEditField::ProviderType ==> !handled && *final(state) == *old(state) && *final(edit_cursor) == *old(edit_cursor),
        field != LoginEditField::ProviderType ==> ({
            let r = field_key(field_text(*old(state), field), *old(edit_cursor) as int, key);
            &&& handled == r.0
            &&& field_text(*final(state), field) == r.1
            &&& *final(edit_cursor) as int == r.2
            &&& same_but(*old(state), *final(state), field)
        }),
{
    match field {
        LoginEditField::ProviderType => false,
        LoginEditField::ProviderId => apply_field_key(&mut state.provider_id, edit_cursor, key),
        LoginEditField::ApiKey => apply_field_key(&mut state.api_key, edit_cursor, key),
        LoginEditField::BaseUrl => apply_field_key(&mut state.base_url, edit_cursor, key),
        LoginEditField::OpusModel => apply_field_key(&mut state.opus_model, edit_cursor, key),
        LoginEditField::SonnetModel => apply_field_key(&mut state.sonnet_model, edit_cursor, key),
        LoginEditField::HaikuModel => apply_field_key(&mut state.haiku_model, edit_cursor, key),
    }
}

/// Pastes text into a field of the form at the cursor (line breaks
/// normalised, at most `MAX_PASTE_CHARS` characters). Any field takes it,
/// the provider type included; the panel does not paste into that one.
pub fn handle_login_paste(edit_cursor: &mut usize, state: &mut LoginEditState, field: LoginEditField, paste_text: &str)
    requires
        field_text(*old(state), field).len() + MAX_PASTE_CHARS <= usize::MAX,
    ensures
        ({
            let r = field_paste(field_text(*old(state), field), *old(edit_cursor) as int, paste_text@);
            &&& field_text(*final(state), field) == r.0
            &&& *final(edit_cursor) as int == r.1
            &&& same_but(*old(state), *final(state), field)
        }),
{
    match field {
        LoginEditField::ProviderType => apply_field_paste(&mut state.provider_type, edit_cursor, paste_text),
        LoginEditField::ProviderId => apply_field_paste(&mut state.provider_id, edit_cursor, paste_text),
        LoginEditField::ApiKey => apply_field_paste(&mut state.api_key, edit_cursor, paste_text),
        LoginEditField::BaseUrl => apply_field_paste(&mut state.base_url, edit_cursor, paste_text),
        LoginEditField::OpusModel => apply_field_paste(&mut state.opus_model, edit_cursor, paste_text),
        LoginEditField::SonnetModel => apply_field_paste(&mut state.sonnet_model, edit_cursor, paste_text),
        LoginEditField::HaikuModel => apply_field_paste(&mut state.haiku_model, edit_cursor, paste_text),
    }
}


/// Whether a stored provider carries exactly what the form says (the
/// protocol as `effective_api_of` stores it).
pub open spec fn provider_matches_form(p: ProviderConfig, es: LoginEditState) -> bool {
    &&& p.provider_type@ == es.provider_type@
    &&& p.id@ == es.provider_id@
    &&& p.api_key@ == es.api_key@
    &&& p.base_url@ == es.base_url@
    &&& p.api == effective_api_of(es.provider_type@, es.api)
    &&& p.models.fable@ == es.fable_model@
    &&& p.models.opus@ == es.opus_model@
    &&& p.models.sonnet@ == es.sonnet_model@
    &&& p.models.haiku@ == es.haiku_model@
}

/// The provider the active profile uses (empty when the alias is not a profile).
pub open spec fn active_profile_provider(c: AppConfig) -> Seq<char> {
    match profile_for(c.profiles, c.active_alias@) {
        Some(pf) => pf.provider@,
        None => Seq::empty(),
    }
}

/// Whether `after` is `before` with the provider of profile `alias` set to
/// `id` (no change when the alias is not a profile).
pub open spec fn profile_provider_set(before: Profiles, after: Profiles, alias: Seq<char>, id: Seq<char>) -> bool {
    forall|a: Seq<char>| #[trigger] crate::profiles::profile_view_for(after, a)
        == if a == alias && profile_for(before, alias) is Some {
            Some(crate::config::ProfileView { provider: id, ..profile_for(before, alias).unwrap()@ })
        } else {
            crate::profiles::profile_view_for(before, a)
        }
}

fn set_profile_provider(ps: &mut Profiles, alias: &str, provider: &String)
    ensures
        profile_provider_set(*old(ps), *final(ps), alias@, provider@),
{
    if str_eq(alias, "fable") {
        ps.fable.provider = clone_string(provider);
    } else if str_eq(alias, "opus") {
        ps.opus.provider = clone_string(provider);
    } else if str_eq(alias, "sonnet") {
        ps.sonnet.provider = clone_string(provider);
    } else if str_eq(alias, "haiku") {
        ps.haiku.provider = clone_string(provider);
    }
}

fn provider_from_form(es: &LoginEditState) -> (r: ProviderConfig)
    ensures
        provider_matches_form(r, *es),
{
    ProviderConfig {
        provider_type: clone_string(&es.provider_type),
        id: clone_string(&es.provider_id),
        api_key: clone_string(&es.api_key),
        base_url: clone_string(&es.base_url),
        api: es.effective_api(),
        models: ProviderModels {
            fable: clone_string(&es.fable_model),
            opus: clone_string(&es.opus_model),
            sonnet: clone_string(&es.sonnet_model),
            haiku: clone_string(&es.haiku_model),
        },
    }
}

/// Whether a form can be saved: only a new provider needs a non-blank id.
pub open spec fn login_edit_accepted(es: LoginEditState) -> bool {
    !(es.original_provider_id@.len() == 0 && crate::wrap::trim(es.provider_id@).len() == 0)
}

/// Whether saving the form `es` took the settings from `c0` to `c1`: a new
/// provider is appended and the active profile switches to it; an existing
/// one (the first with the original id) takes the form's values, and the
/// active profile follows a changed id; with no such provider nothing
/// changes. Only the providers and the profiles change.
pub open spec fn login_edit_applied(c0: AppConfig, c1: AppConfig, es: LoginEditState) -> bool {
    &&& c1 == (AppConfig { providers: c1.providers, profiles: c1.profiles, ..c0 })
    &&& if es.original_provider_id@.len() == 0 {
        &&& c1.providers@.len() == c0.providers@.len() + 1
        &&& c1.providers@.take(c0.providers@.len() as int) == c0.providers@
        &&& provider_matches_form(c1.providers@.last(), es)
        &&& profile_provider_set(c0.profiles, c1.profiles, c0.active_alias@, es.provider_id@)
    } else {
        let j = find_provider(c0.providers@, es.original_provider_id@);
        if j < 0 {
            c1.providers@ == c0.providers@ && c1.profiles == c0.profiles
        } else {
            &&& c1.providers@.len() == c0.providers@.len()
            &&& provider_matches_form(c1.providers@[j], es)
            &&& forall|k: int| 0 <= k < c0.providers@.len() && k != j ==> c1.providers@[k] == c0.providers@[k]
            &&& if active_profile_provider(c0) == es.original_provider_id@ && es.provider_id@ != es.original_provider_id@ {
                profile_provider_set(c0.profiles, c1.profiles, c0.active_alias@, es.provider_id@)
            } else {
                c1.profiles == c0.profiles
            }
        }
    }
}

/// Writes the edit form into the settings. A new provider (no original id)
/// needs a non-blank id; it is appended and the active profile switches to
/// it. An existing provider (the first with the original id) takes the form's
/// values, and the active profile follows a changed id. Returns `false`, with
/// the settings unchanged, only for a new provider with a blank id.
pub fn apply_login_edit(cfg: &mut PeriConfig, es: &LoginEditState) -> (ok: bool)
    ensures
        ok == login_edit_accepted(*es),
        !ok ==> *final(cfg) == *old(cfg),
        ok ==> login_edit_applied(old(cfg).config, final(cfg).config, *es),
{
    let chars = crate::text::chars_of(es.provider_id.as_str());
    let t = crate::wrap::trimmed(&chars, 0, chars.len());
    proof { assert(chars@.subrange(0, chars@.len() as int) =~= chars@); }
    if es.original_provider_id.as_str().is_empty() {
        if t.len() == 0 {
            return false;
        }
        let newp = provider_from_form(es);
        let ghost c0 = cfg.config;
        cfg.config.providers.push(newp);
        let alias = clone_string(&cfg.config.active_alias);
        set_profile_provider(&mut cfg.config.profiles, alias.as_str(), &es.provider_id);
        proof {
            assert(cfg.config.providers@.take(c0.providers@.len() as int) =~= c0.providers@);
        }
        return true;
    }
    match find_provider_exec(&cfg.config.providers, es.original_provider_id.as_str()) {
        None => true,
        Some(j) => {
            let ghost c0 = cfg.config;
            let newp = provider_from_form(es);
            cfg.config.providers.set(j, newp);
            let active: String = match cfg.config.profiles.get(cfg.config.active_alias.as_str()) {
                Some(pf) => clone_string(&pf.provider),
                None => String::new(),
            };
            if str_eq(active.as_str(), es.original_provider_id.as_str())
                && !str_eq(es.provider_id.as_str(), es.original_provider_id.as_str()) {
                let alias = clone_string(&cfg.config.active_alias);
                set_profile_provider(&mut cfg.config.profiles, alias.as_str(), &es.provider_id);
            }
            true
        },
    }
}

/// The settings a save of the form would write: the current ones with the
/// form applied (see `apply_login_edit`), worked on a copy so that nothing
/// changes before they are on disk. `None` when the form cannot be saved.
pub fn prepare_login_save(cfg: &PeriConfig, es: &LoginEditState) -> (r: Option<PeriConfig>)
    ensures
        r is Some <==> login_edit_accepted(*es),
        r matches Some(snap) ==> login_edit_applied(cfg.config, snap.config, *es),
{
    let mut snap = cfg.clone_config();
    if apply_login_edit(&mut snap, es) {
        Some(snap)
    } else {
        None
    }
}

/// Publishes saved settings once the host has tried to write them to disk:
/// only when that worked do the settings become `snap`; otherwise they stay
/// as they were and the form stays open. Returns whether the save took.
pub fn commit_login_save(cfg: &mut PeriConfig, snap: PeriConfig, persisted: bool) -> (saved: bool)
    ensures
        saved == persisted,
        persisted ==> *final(cfg) == snap,
        !persisted ==> *final(cfg) == *old(cfg),
{
    if persisted {
        *cfg = snap;
    }
    persisted
}

/// Removes every provider with the given id. Returns whether one was removed.
pub fn delete_provider(cfg: &mut PeriConfig, provider_id: &str) -> (removed: bool)
    ensures
        final(cfg).config.providers@ == old(cfg).config.providers@.filter(|p: ProviderConfig| p.id@ != provider_id@),
        removed == (final(cfg).config.providers@.len() < old(cfg).config.providers@.len()),
        final(cfg).config.profiles == old(cfg).config.profiles,
        final(cfg).config.active_alias == old(cfg).config.active_alias,
{
    let ghost ps = cfg.config.providers@;
    let ghost f = |p: ProviderConfig| p.id@ != provider_id@;
    let mut kept: Vec<ProviderConfig> = Vec::new();
    let n = cfg.config.providers.len();
    let mut old_list: Vec<ProviderConfig> = Vec::new();
    std::mem::swap(&mut old_list, &mut cfg.config.providers);
    proof { assert(ps.take(0).filter(f) =~= Seq::<ProviderConfig>::empty()); }
    let mut i: usize = 0;
    while i < old_list.len()
        invariant
            old_list@ == ps,
            n == ps.len(),
            f == (|p: ProviderConfig| p.id@ != provider_id@),
            i <= ps.len(),
            kept@ == ps.take(i as int).filter(f),
        decreases ps.len() - i,
    {
        proof {
            assert(ps.take(i + 1).drop_last() =~= ps.take(i as int));
            reveal(Seq::filter);
        }
        if !str_eq(old_list[i].id.as_str(), provider_id) {
            kept.push(old_list[i].clone_provider());
        }
        i = i + 1;
    }
    proof {
        assert(ps.take(ps.len() as int) =~= ps);
        ps.lemma_filter_len(f);
    }
    cfg.config.providers = kept;
    cfg.config.providers.len() < n
}


/// Points the active profile at a provider and drops its own model, so that
/// the provider's mapping applies.
pub fn activate_provider(cfg: &mut PeriConfig, provider_id: &str)
    ensures
        final(cfg).config == (AppConfig { profiles: final(cfg).config.profiles, ..old(cfg).config }),
        final(cfg).config.providers == old(cfg).config.providers,
        final(cfg).config.active_alias == old(cfg).config.active_alias,
        forall|a: Seq<char>| #[trigger] crate::profiles::profile_view_for(final(cfg).config.profiles, a)
            == if a == old(cfg).config.active_alias@ && profile_for(old(cfg).config.profiles, a) is Some {
                Some(crate::config::ProfileView {
                    provider: provider_id@,
                    model: None,
                    ..profile_for(old(cfg).config.profiles, a).unwrap()@
                })
            } else {
                crate::profiles::profile_view_for(old(cfg).config.profiles, a)
            },
{
    let alias = clone_string(&cfg.config.active_alias);
    let ps = &mut cfg.config.profiles;
    if str_eq(alias.as_str(), "fable") {
        ps.fable.provider = provider_id.to_string();
        ps.fable.model = None;
    } else if str_eq(alias.as_str(), "opus") {
        ps.opus.provider = provider_id.to_string();
        ps.opus.model = None;
    } else if str_eq(alias.as_str(), "sonnet") {
        ps.sonnet.provider = provider_id.to_string();
        ps.sonnet.model = None;
    } else if str_eq(alias.as_str(), "haiku") {
        ps.haiku.provider = provider_id.to_string();
        ps.haiku.model = None;
    }
}

/// The model shown after activating a provider: its mapping for the active
/// alias when set, else the alias.
pub open spec fn activated_model(c: AppConfig, provider_id: Seq<char>) -> Seq<char> {
    let j = find_provider(c.providers@, provider_id);
    if j >= 0 {
        match crate::profiles::nonempty(crate::config::model_for(c.providers@[j].models, c.active_alias@)) {
            Some(m) => m,
            None => c.active_alias@,
        }
    } else {
        c.active_alias@
    }
}

/// The model shown after activating a provider.
pub fn activated_model_name(cfg: &AppConfig, provider_id: &str) -> (r: String)
    ensures
        r@ == activated_model(*cfg, provider_id@),
{
    match find_provider_exec(&cfg.providers, provider_id) {
        Some(j) => match cfg.providers[j].models.get_model(cfg.active_alias.as_str()) {
            Some(m) => if m.as_str().is_empty() { clone_string(&cfg.active_alias) } else { clone_string(m) },
            None => clone_string(&cfg.active_alias),
        },
        None => clone_string(&cfg.active_alias),
    }
}

/// Whether `c1` is `c0` with provider `id` made active: the active profile
/// (when the alias names one) uses `id` and no model of its own, and nothing
/// else changes.
pub open spec fn provider_activated(c0: AppConfig, c1: AppConfig, id: Seq<char>) -> bool {
    &&& c1 == (AppConfig { profiles: c1.profiles, ..c0 })
    &&& forall|a: Seq<char>| #[trigger] crate::profiles::profile_view_for(c1.profiles, a)
        == if a == c0.active_alias@ && profile_for(c0.profiles, a) is Some {
            Some(crate::config::ProfileView { provider: id, model: None, ..profile_for(c0.profiles, a).unwrap()@ })
        } else {
            crate::profiles::profile_view_for(c0.profiles, a)
        }
}

/// Whether `after` is the listed providers `before` with exactly those whose
/// id is `id` marked active, every other field kept.
pub open spec fn marked_active(before: Seq<ProviderSummary>, after: Seq<ProviderSummary>, id: Seq<char>) -> bool {
    &&& after.len() == before.len()
    &&& forall|i: int| 0 <= i < before.len() ==> #[trigger] after[i]
        == (ProviderSummary { is_active: before[i].id@ == id, ..before[i] })
}

/// Marks as active the listed providers with the given id, and no others.
fn mark_active(providers: &mut Vec<ProviderSummary>, id: &str)
    ensures
        marked_active(old(providers)@, final(providers)@, id@),
{
    let ghost before = providers@;
    let mut i: usize = 0;
    while i < providers.len()
        invariant
            providers@.len() == before.len(),
            i <= before.len(),
            forall|k: int| 0 <= k < i ==> #[trigger] providers@[k]
                == (ProviderSummary { is_active: before[k].id@ == id@, ..before[k] }),
            forall|k: int| i <= k < before.len() ==> #[trigger] providers@[k] == before[k],
        decreases before.len() - i,
    {
        let mut item = providers.remove(i);
        item.is_active = str_eq(item.id.as_str(), id);
        providers.insert(i, item);
        i = i + 1;
    }
}

/// What the service snapshot shows once a provider is active.
#[derive(Debug)]
pub struct ActivatedProvider {
    /// The provider's type.
    pub provider_name: String,
    /// The model the active alias maps to under that provider.
    pub model_name: String,
}

/// Whether activating the `sel`-th of the listed providers `ps0` took the
/// settings from `c0` to `c1` and the list to `ps1`, and gave `r`: within the
/// list, that provider becomes the active profile's, only it is marked active,
/// and `r` holds its type and the model now in use; past the end nothing
/// changes and `r` is `None`.
pub open spec fn listed_provider_activated(c0: PeriConfig, c1: PeriConfig, ps0: Seq<ProviderSummary>,
    ps1: Seq<ProviderSummary>, sel: int, r: Option<ActivatedProvider>) -> bool {
    if 0 <= sel < ps0.len() {
        let p = ps0[sel];
        &&& provider_activated(c0.config, c1.config, p.id@)
        &&& marked_active(ps0, ps1, p.id@)
        &&& r matches Some(a) && a.provider_name@ == p.provider_type@
            && a.model_name@ == activated_model(c1.config, p.id@)
    } else {
        r is None && c1 == c0 && ps1 == ps0
    }
}

/// Whether a provider list shows the settings' providers in order, each
/// marked active exactly when the active profile uses it.
pub open spec fn list_reflects(c: AppConfig, ps: Seq<ProviderSummary>) -> bool {
    &&& ps.len() == c.providers@.len()
    &&& forall|i: int| 0 <= i < ps.len() ==> (#[trigger] ps[i]).id@ == c.providers@[i].id@
        && ps[i].is_active == (c.providers@[i].id@ == active_profile_provider(c))
}

/// Activating a listed provider keeps the list true to the settings: when the
/// active alias names a profile and the list showed the providers in order,
/// the updated list marks active exactly the providers the active profile
/// now uses, as deriving the list afresh would.
pub proof fn law_activation_keeps_list_true(c0: PeriConfig, c1: PeriConfig, ps0: Seq<ProviderSummary>,
    ps1: Seq<ProviderSummary>, sel: int, r: Option<ActivatedProvider>)
    requires
        profile_for(c0.config.profiles, c0.config.active_alias@) is Some,
        ps0.len() == c0.config.providers@.len(),
        forall|i: int| 0 <= i < ps0.len() ==> (#[trigger] ps0[i]).id@ == c0.config.providers@[i].id@,
        0 <= sel < ps0.len(),
        listed_provider_activated(c0, c1, ps0, ps1, sel, r),
    ensures
        list_reflects(c1.config, ps1),
        active_profile_provider(c1.config) == ps0[sel].id@,
{
    let a = c0.config.active_alias@;
    assert(crate::profiles::profile_view_for(c1.config.profiles, a) is Some);
    assert(active_profile_provider(c1.config) == ps0[sel].id@);
    assert forall|i: int| 0 <= i < ps1.len() implies (#[trigger] ps1[i]).id@ == c1.config.providers@[i].id@
        && ps1[i].is_active == (c1.config.providers@[i].id@ == active_profile_provider(c1.config)) by {
        assert(ps1[i] == (ProviderSummary { is_active: ps0[i].id@ == ps0[sel].id@, ..ps0[i] }));
    }
}

/// Makes the `sel`-th listed provider the active one: the active profile
/// points at it with no model of its own, the list marks it (and only it)
/// active, and the snapshot's provider and model names are returned. Past the
/// end of the list nothing changes and `None` comes back.
pub fn activate_listed_provider(cfg: &mut PeriConfig, providers: &mut Vec<ProviderSummary>, sel: usize)
    -> (r: Option<ActivatedProvider>)
    ensures
        listed_provider_activated(*old(cfg), *final(cfg), old(providers)@, final(providers)@, sel as int, r),
{
    if sel >= providers.len() {
        return None;
    }
    let id = clone_string(&providers[sel].id);
    let provider_name = clone_string(&providers[sel].provider_type);
    activate_provider(cfg, id.as_str());
    let model_name = activated_model_name(&cfg.config, id.as_str());
    mark_active(providers, id.as_str());
    Some(ActivatedProvider { provider_name, model_name })
}

/// Mode of the provider panel.
#[derive(Debug, Clone, Copy, PartialEq, Eq, Structural)]
pub enum LoginPanelMode {
    /// The provider list.
    Browse,
    /// The edit form.
    Edit,
    /// Asking whether to delete the highlighted provider.
    ConfirmDelete,
}

/// State of the provider panel between key presses.
#[derive(Debug)]
pub struct LoginPanelState {
    pub mode: LoginPanelMode,
    /// Highlighted provider.
    pub cursor: usize,
    pub edit_state: Option<LoginEditState>,
    pub edit_focus: LoginEditField,
    /// Cursor in the focused field, in characters.
    pub edit_cursor: usize,
}

/// What a key on the provider panel asks of the host.
#[derive(Debug)]
pub enum LoginAction {
    /// The key is not for this panel.
    Ignored,
    /// The key was used; nothing more to do.
    Consumed,
    /// Close the panel.
    Close,
    /// Make the `i`-th listed provider the active one, then close the panel.
    Activate(usize),
    /// Delete the `i`-th listed provider.
    Delete(usize),
    /// Write this form into the settings.
    Save(LoginEditState),
}

/// Whether a form's text fields leave room for one more character.
pub open spec fn form_fits(es: LoginEditState) -> bool {
    forall|f: LoginEditField| #[trigger] field_text(es, f).len() + MAX_PASTE_CHARS <= usize::MAX
}

fn field_len(es: &LoginEditState, f: LoginEditField) -> (r: usize)
    ensures
        r == field_text(*es, f).len(),
{
    let chars = crate::text::chars_of(es.field_value(f).as_str());
    chars.len()
}

/// Whether a form was opened on a provider: every field holds the provider's
/// value, and an unset protocol reads as chat completions.
pub open spec fn form_of(p: ProviderConfig, es: LoginEditState) -> bool {
    &&& es.original_provider_id@ == p.id@
    &&& es.provider_type@ == p.provider_type@
    &&& es.provider_id@ == p.id@
    &&& es.api_key@ == p.api_key@
    &&& es.base_url@ == p.base_url@
    &&& es.fable_model@ == p.models.fable@
    &&& es.opus_model@ == p.models.opus@
    &&& es.sonnet_model@ == p.models.sonnet@
    &&& es.haiku_model@ == p.models.haiku@
    &&& es.api == match p.api { Some(a) => a, None => ApiProtocol::ChatCompletions }
}

/// The form of provider `id` is loaded, focus on the type row, cursor at 0
/// (no change when no provider has that id).
pub open spec fn edit_mode_entered(s: LoginPanelState, t: LoginPanelState, cfg: PeriConfig, id: Seq<char>) -> bool {
    let j = find_provider(cfg.config.providers@, id);
    if j >= 0 {
        &&& t.edit_state matches Some(es) && form_of(cfg.config.providers@[j], es)
        &&& t == (LoginPanelState { edit_state: t.edit_state, edit_focus: LoginEditField::ProviderType, edit_cursor: 0, ..s })
    } else {
        t == s
    }
}

/// Opens the edit form on the provider with the given id (the first such);
/// nothing changes when there is none.
pub fn enter_login_edit_mode(st: &mut LoginPanelState, cfg: &PeriConfig, provider_id: &str)
    ensures
        edit_mode_entered(*old(st), *final(st), *cfg, provider_id@),
{
    match find_provider_exec(&cfg.config.providers, provider_id) {
        Some(j) => {
            st.edit_state = Some(LoginEditState::from_provider_config(&cfg.config.providers[j]));
            st.edit_focus = LoginEditField::ProviderType;
            st.edit_cursor = 0;
        },
        None => {},
    }
}

/// Whether a text field takes a key (the same for every text and cursor).
fn text_key_handled(key: KeyPress) -> (r: bool)
    ensures
        forall|v: Seq<char>, c: int| #[trigger] field_key(v, c, key).0 == r,
{
    match key.code {
        KeyCode::Char(ch) => !key.ctrl || ch == 'w',
        KeyCode::Backspace => !key.ctrl,
        KeyCode::Delete => true,
        KeyCode::Left | KeyCode::Right | KeyCode::Home | KeyCode::End => !key.ctrl,
        _ => false,
    }
}

/// What a key does to the provider form (see `handle_login_edit_keys`).
pub open spec fn login_edit_step(s: LoginPanelState, t: LoginPanelState, key: KeyPress, r: LoginAction) -> bool {
    match s.edit_state {
        None => t == (LoginPanelState { mode: LoginPanelMode::Browse, ..s }) && r is Consumed,
        Some(es) => {
            let f = s.edit_focus;
            let tk = field_key(field_text(es, f), s.edit_cursor as int, key);
            if f != LoginEditField::ProviderType && tk.0 {
                &&& t.edit_state matches Some(es2) && field_text(es2, f) == tk.1 && same_but(es, es2, f)
                &&& t.edit_cursor as int == tk.2
                &&& t == (LoginPanelState { edit_state: t.edit_state, edit_cursor: t.edit_cursor, ..s })
                &&& r is Consumed
            } else if f == LoginEditField::ProviderType && !key.ctrl
                && (key.code == KeyCode::Left || key.code == KeyCode::Right || key.code == KeyCode::Char(' ')) {
                &&& t.edit_state matches Some(es2)
                    && es2 == (LoginEditState { provider_type: es2.provider_type, api: es2.api, ..es })
                    && (if es.provider_type@ == "anthropic"@ {
                        es2.provider_type@ == "openai"@ && es2.api == es.api
                    } else {
                        es2.provider_type@ == "anthropic"@ && es2.api == ApiProtocol::ChatCompletions
                    })
                &&& t == (LoginPanelState { edit_state: t.edit_state, ..s })
                &&& r is Consumed
            } else if (key.code == KeyCode::Up || key.code == KeyCode::Down) && !key.ctrl {
                let g = if key.code == KeyCode::Up { field_prev(f) } else { field_next(f) };
                &&& t == (LoginPanelState {
                    edit_focus: g,
                    edit_cursor: if g == LoginEditField::ProviderType { 0 } else { field_text(es, g).len() as usize },
                    ..s
                })
                &&& r is Consumed
            } else if key.code == KeyCode::Esc {
                t == (LoginPanelState { mode: LoginPanelMode::Browse, edit_state: None, ..s }) && r is Consumed
            } else if key.code == KeyCode::Char('s') && key.ctrl {
                t == (LoginPanelState { mode: LoginPanelMode::Browse, edit_state: None, ..s }) && r == LoginAction::Save(es)
            } else {
                t == s && r is Consumed
            }
        },
    }
}

/// Handles a key in the edit form: text keys edit the focused field, the
/// provider-type switch flips with Left/Right/Space, Up/Down move between
/// fields (the cursor goes to the end of the new field), Esc abandons the
/// form and Ctrl+S hands it over for saving; both go back to the list.
pub fn handle_login_edit_keys(st: &mut LoginPanelState, key: KeyPress) -> (r: LoginAction)
    requires
        old(st).mode == LoginPanelMode::Edit,
        old(st).edit_state matches Some(es) ==> form_fits(es),
    ensures
        login_edit_step(*old(st), *final(st), key, r),
{
    let mut es = match st.edit_state.take() {
        Some(es) => es,
        None => {
            st.mode = LoginPanelMode::Browse;
            return LoginAction::Consumed;
        },
    };
    let ghost es0 = es;
    let f = st.edit_focus;
    proof { assert(field_text(es0, f).len() + MAX_PASTE_CHARS <= usize::MAX); }
    if f != LoginEditField::ProviderType && text_key_handled(key) {
        let mut cur = st.edit_cursor;
        handle_login_text_input(&mut es, f, &mut cur, key);
        st.edit_cursor = cur;
        st.edit_state = Some(es);
        return LoginAction::Consumed;
    }
    let is_space = match key.code { KeyCode::Char(c) => c == ' ', _ => false };
    let is_lr = match key.code { KeyCode::Left | KeyCode::Right => true, _ => false };
    if f == LoginEditField::ProviderType && !key.ctrl && (is_lr || is_space) {
        es.toggle_provider_type();
        st.edit_state = Some(es);
        return LoginAction::Consumed;
    }
    match key.code {
        KeyCode::Up if !key.ctrl => {
            let nf = f.prev();
            st.edit_focus = nf;
            st.edit_cursor = if nf == LoginEditField::ProviderType { 0 } else { field_len(&es, nf) };
            st.edit_state = Some(es);
            LoginAction::Consumed
        },
        KeyCode::Down if !key.ctrl => {
            let nf = f.next();
            st.edit_focus = nf;
            st.edit_cursor = if nf == LoginEditField::ProviderType { 0 } else { field_len(&es, nf) };
            st.edit_state = Some(es);
            LoginAction::Consumed
        },
        KeyCode::Esc => {
            st.mode = LoginPanelMode::Browse;
            LoginAction::Consumed
        },
        KeyCode::Char(c) => {
            if c == 's' && key.ctrl {
                st.mode = LoginPanelMode::Browse;
                LoginAction::Save(es)
            } else {
                st.edit_state = Some(es);
                LoginAction::Consumed
            }
        },
        _ => {
            st.edit_state = Some(es);
            LoginAction::Consumed
        },
    }
}


/// What a key does to the provider panel (see `login_panel_on_key`).
pub open spec fn login_panel_step(s: LoginPanelState, t: LoginPanelState, cfg: PeriConfig,
    providers: Seq<crate::snapshot::ProviderSummary>, key: KeyPress, r: LoginAction) -> bool {
    let n = providers.len();
    let sel = s.cursor;
    match s.mode {
        LoginPanelMode::ConfirmDelete => t == (LoginPanelState { mode: LoginPanelMode::Browse, ..s })
            && r == (if key.code == KeyCode::Enter { LoginAction::Delete(sel) } else { LoginAction::Consumed }),
        LoginPanelMode::Edit => login_edit_step(s, t, key, r),
        LoginPanelMode::Browse => if key.code == KeyCode::Esc {
            r is Close && t == s
        } else if key.code == KeyCode::Up {
            t == (LoginPanelState { cursor: crate::list_nav::prev_sel(sel as int) as usize, ..s }) && r is Consumed
        } else if key.code == KeyCode::Down {
            t == (LoginPanelState { cursor: if n > 0 { crate::list_nav::next_sel(sel as int, n as int) as usize } else { sel }, ..s })
                && r is Consumed
        } else if key.code == KeyCode::Enter {
            t == s && r == (if sel < n { LoginAction::Activate(sel) } else { LoginAction::Close })
        } else if key.code == KeyCode::Char('n') && key.ctrl {
            &&& t.edit_state matches Some(es) && es.original_provider_id@.len() == 0 && es.provider_type@ == "anthropic"@
                && es.provider_id@.len() == 0 && es.api_key@.len() == 0 && es.base_url@.len() == 0
                && es.fable_model@.len() == 0 && es.opus_model@.len() == 0 && es.sonnet_model@.len() == 0
                && es.haiku_model@.len() == 0 && es.api == ApiProtocol::ChatCompletions
            &&& t == (LoginPanelState { mode: LoginPanelMode::Edit, edit_state: t.edit_state,
                edit_focus: LoginEditField::ProviderType, edit_cursor: 0, ..s })
            &&& r is Consumed
        } else if key.code == KeyCode::Char('d') && key.ctrl {
            t == (LoginPanelState { mode: if n > 0 { LoginPanelMode::ConfirmDelete } else { LoginPanelMode::Browse }, ..s })
                && r is Consumed
        } else if key.code == KeyCode::Char('e') || key.code == KeyCode::Char('E') {
            &&& r is Consumed
            &&& if sel < n {
                t.mode == LoginPanelMode::Edit
                    && edit_mode_entered(s, LoginPanelState { mode: s.mode, ..t }, cfg, providers[sel as int].id@)
            } else {
                t == s
            }
        } else {
            t == s && r is Consumed
        },
    }
}

/// Handles a key on the provider panel. In the list: Esc closes, Up/Down
/// move, Ctrl+N opens a blank form, Ctrl+D asks to delete the highlighted
/// provider, E opens the form on it, Enter activates it and closes. While
/// asking, Enter deletes and any other key cancels. In the form, see
/// `handle_login_edit_keys`.
pub fn login_panel_on_key(
    st: &mut LoginPanelState,
    cfg: &PeriConfig,
    providers: &Vec<crate::snapshot::ProviderSummary>,
    key: KeyPress,
) -> (r: LoginAction)
    requires
        old(st).edit_state matches Some(es) ==> form_fits(es),
    ensures
        login_panel_step(*old(st), *final(st), *cfg, providers@, key, r),
{
    match st.mode {
        LoginPanelMode::ConfirmDelete => {
            st.mode = LoginPanelMode::Browse;
            match key.code {
                KeyCode::Enter => LoginAction::Delete(st.cursor),
                _ => LoginAction::Consumed,
            }
        },
        LoginPanelMode::Edit => handle_login_edit_keys(st, key),
        LoginPanelMode::Browse => {
            let n = providers.len();
            match key.code {
                KeyCode::Esc => LoginAction::Close,
                KeyCode::Up => {
                    st.cursor = crate::list_nav::previous_selection(st.cursor);
                    LoginAction::Consumed
                },
                KeyCode::Down => {
                    if n > 0 {
                        st.cursor = crate::list_nav::next_selection(st.cursor, n);
                    }
                    LoginAction::Consumed
                },
                KeyCode::Enter => {
                    if st.cursor < n { LoginAction::Activate(st.cursor) } else { LoginAction::Close }
                },
                KeyCode::Char(c) => {
                    if c == 'n' && key.ctrl {
                        st.edit_state = Some(LoginEditState::default_empty());
                        st.edit_focus = LoginEditField::ProviderType;
                        st.edit_cursor = 0;
                        st.mode = LoginPanelMode::Edit;
                    } else if c == 'd' && key.ctrl {
                        if n > 0 {
                            st.mode = LoginPanelMode::ConfirmDelete;
                        }
                    } else if c == 'e' || c == 'E' {
                        if st.cursor < n {
                            let id = clone_string(&providers[st.cursor].id);
                            enter_login_edit_mode(st, cfg, id.as_str());
                            st.mode = LoginPanelMode::Edit;
                        }
                    }
                    LoginAction::Consumed
                },
                _ => LoginAction::Consumed,
            }
        },
    }
}

/// Handles a key on the provider panel and carries out what it asks of the
/// settings: where `login_panel_on_key` asks to activate a listed provider,
/// that provider is made active (see `activate_listed_provider`) and the
/// panel closes. Any other key leaves the settings and the list alone.
pub fn login_panel_handle_key(
    st: &mut LoginPanelState,
    cfg: &mut PeriConfig,
    providers: &mut Vec<ProviderSummary>,
    key: KeyPress,
) -> (r: (LoginAction, Option<ActivatedProvider>))
    requires
        old(st).edit_state matches Some(es) ==> form_fits(es),
    ensures
        !(old(st).mode == LoginPanelMode::Browse && key.code == KeyCode::Enter) ==> {
            &&& login_panel_step(*old(st), *final(st), *old(cfg), old(providers)@, key, r.0)
            &&& r.1 is None
            &&& *final(cfg) == *old(cfg)
            &&& final(providers)@ == old(providers)@
        },
        old(st).mode == LoginPanelMode::Browse && key.code == KeyCode::Enter ==> {
            &&& *final(st) == *old(st)
            &&& r.0 is Close
            &&& listed_provider_activated(*old(cfg), *final(cfg), old(providers)@, final(providers)@,
                old(st).cursor as int, r.1)
        },
{
    let action = login_panel_on_key(st, cfg, providers, key);
    match action {
        LoginAction::Activate(i) => {
            let a = activate_listed_provider(cfg, providers, i);
            (LoginAction::Close, a)
        },
        other => (other, None),
    }
}

/// Handles a paste: only the form's text fields take it.
pub fn login_panel_on_paste(st: &mut LoginPanelState, paste_text: &str) -> (r: LoginAction)
    requires
        old(st).edit_state matches Some(es) ==> form_fits(es),
    ensures
        (old(st).mode == LoginPanelMode::Edit && old(st).edit_focus != LoginEditField::ProviderType) ==> r is Consumed
            && (old(st).edit_state matches Some(es) ==> ({
                let p = field_paste(field_text(es, old(st).edit_focus), old(st).edit_cursor as int, paste_text@);
                &&& final(st).edit_state matches Some(es2) && field_text(es2, old(st).edit_focus) == p.0
                    && same_but(es, es2, old(st).edit_focus)
                &&& final(st).edit_cursor as int == p.1
            })),
        !(old(st).mode == LoginPanelMode::Edit && old(st).edit_focus != LoginEditField::ProviderType) ==> r is Ignored
            && *final(st) == *old(st),
{
    if st.mode == LoginPanelMode::Edit && st.edit_focus != LoginEditField::ProviderType {
        match st.edit_state.take() {
            Some(mut es) => {
                let f = st.edit_focus;
                proof { assert(field_text(es, f).len() + MAX_PASTE_CHARS <= usize::MAX); }
                let mut cur = st.edit_cursor;
                handle_login_paste(&mut cur, &mut es, f, paste_text);
                st.edit_cursor = cur;
                st.edit_state = Some(es);
            },
            None => {},
        }
        LoginAction::Consumed
    } else {
        LoginAction::Ignored
    }
}


/// A provider saved from a form opens again with the same values; its
/// protocol is the chosen one, except that an Anthropic provider stores none
/// and reads back as chat completions.
pub proof fn law_saved_form_reopens(p: ProviderConfig, saved: LoginEditState, reopened: LoginEditState)
    requires
        provider_matches_form(p, saved),
        form_of(p, reopened),
    ensures
        reopened.provider_type@ == saved.provider_type@,
        reopened.provider_id@ == saved.provider_id@,
        reopened.original_provider_id@ == saved.provider_id@,
        reopened.api_key@ == saved.api_key@,
        reopened.base_url@ == saved.base_url@,
        reopened.fable_model@ == saved.fable_model@,
        reopened.opus_model@ == saved.opus_model@,
        reopened.sonnet_model@ == saved.sonnet_model@,
        reopened.haiku_model@ == saved.haiku_model@,
        reopened.api == if saved.provider_type@ == "anthropic"@ { ApiProtocol::ChatCompletions } else { saved.api },
        saved.provider_type@ == "anthropic"@ ==> p.api is None,
{
}

/// Message key of a provider type's name: Anthropic, or OpenAI for any other type.
pub fn provider_type_label(provider_type: &str) -> (r: &'static str)
    ensures
        r@ == if provider_type@ == "anthropic"@ { "setup-provider-anthropic"@ } else { "setup-provider-openai"@ },
{
    if str_eq(provider_type, "anthropic") { "setup-provider-anthropic" } else { "setup-provider-openai" }
}

} // verus!
