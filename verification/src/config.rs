//! The settings that the panels read and change: providers, the four model
//! profiles, display switches and the runtime permission mode.
use vstd::prelude::*;
use crate::text::str_eq;

verus! {

/// Wire protocol of an OpenAI-compatible provider.
#[derive(Clone, Copy, Debug, PartialEq, Eq, Structural)]
pub enum ApiProtocol {
    ChatCompletions,
    Responses,
}

/// Model names a provider maps the profile aliases to.
#[derive(Clone, Debug)]
pub struct ProviderModels {
    pub fable: String,
    pub opus: String,
    pub sonnet: String,
    pub haiku: String,
}

/// One configured model provider.
#[derive(Clone, Debug)]
pub struct ProviderConfig {
    pub id: String,
    pub provider_type: String,
    pub api_key: String,
    pub base_url: String,
    pub api: Option<ApiProtocol>,
    pub models: ProviderModels,
}

/// What one model profile uses: a provider id, a model name that overrides
/// the provider's mapping, and a reasoning effort.
#[derive(Clone, Debug)]
pub struct Profile {
    pub provider: String,
    pub model: Option<String>,
    pub effort: String,
    pub max_tokens: u32,
    pub context_1m: bool,
}

/// Mathematical form of a profile.
pub struct ProfileView {
    pub provider: Seq<char>,
    pub model: Option<Seq<char>>,
    pub effort: Seq<char>,
    pub max_tokens: u32,
    pub context_1m: bool,
}

impl View for Profile {
    type V = ProfileView;

    open spec fn view(&self) -> ProfileView {
        ProfileView {
            provider: self.provider@,
            model: match self.model { Some(m) => Some(m@), None => None },
            effort: self.effort@,
            max_tokens: self.max_tokens,
            context_1m: self.context_1m,
        }
    }
}

/// The four fixed profiles.
#[derive(Clone, Debug)]
pub struct Profiles {
    pub fable: Profile,
    pub opus: Profile,
    pub sonnet: Profile,
    pub haiku: Profile,
}

/// The application settings.
#[derive(Clone, Debug)]
pub struct AppConfig {
    pub active_alias: String,
    pub profiles: Profiles,
    pub providers: Vec<ProviderConfig>,
    pub diff_enabled: bool,
    pub show_cache_warning: bool,
    pub context_1m: Option<bool>,
    pub streaming_mode: Option<String>,
    pub language: Option<String>,
    /// Name of the chosen colour theme, when one was saved.
    pub theme: Option<String>,
}

/// The settings file's contents.
#[derive(Clone, Debug)]
pub struct PeriConfig {
    pub config: AppConfig,
}

/// How tool calls are approved.
#[derive(Clone, Copy, Debug, PartialEq, Eq, Structural)]
pub enum PermissionMode {
    Default,
    AcceptEdit,
    AutoMode,
    Bypass,
}

impl Default for ProviderModels {
    fn default() -> (r: ProviderModels)
        ensures
            r.fable@ == Seq::<char>::empty(),
            r.opus@ == Seq::<char>::empty(),
            r.sonnet@ == Seq::<char>::empty(),
            r.haiku@ == Seq::<char>::empty(),
    {
        ProviderModels { fable: String::new(), opus: String::new(), sonnet: String::new(), haiku: String::new() }
    }
}

impl Default for ProviderConfig {
    fn default() -> (r: ProviderConfig)
        ensures
            r.id@ == Seq::<char>::empty(),
            r.provider_type@ == Seq::<char>::empty(),
            r.api_key@ == Seq::<char>::empty(),
            r.base_url@ == Seq::<char>::empty(),
            r.api is None,
            r.models.fable@ == Seq::<char>::empty(),
            r.models.opus@ == Seq::<char>::empty(),
            r.models.sonnet@ == Seq::<char>::empty(),
            r.models.haiku@ == Seq::<char>::empty(),
    {
        ProviderConfig {
            id: String::new(),
            provider_type: String::new(),
            api_key: String::new(),
            base_url: String::new(),
            api: None,
            models: ProviderModels::default(),
        }
    }
}

impl Default for Profile {
    fn default() -> (r: Profile)
        ensures
            r.provider@ == Seq::<char>::empty(),
            r.model is None,
            r.effort@ == Seq::<char>::empty(),
            r.max_tokens == 32000,
            !r.context_1m,
    {
        Profile { provider: String::new(), model: None, effort: String::new(), max_tokens: 32000, context_1m: false }
    }
}

impl Default for Profiles {
    fn default() -> (r: Profiles)
        ensures
            r.fable.provider@ == Seq::<char>::empty() && r.fable.model is None && r.fable.effort@ == Seq::<char>::empty(),
            r.opus.provider@ == Seq::<char>::empty() && r.opus.model is None && r.opus.effort@ == Seq::<char>::empty(),
            r.sonnet.provider@ == Seq::<char>::empty() && r.sonnet.model is None && r.sonnet.effort@ == Seq::<char>::empty(),
            r.haiku.provider@ == Seq::<char>::empty() && r.haiku.model is None && r.haiku.effort@ == Seq::<char>::empty(),
    {
        Profiles { fable: Profile::default(), opus: Profile::default(), sonnet: Profile::default(), haiku: Profile::default() }
    }
}

impl Default for AppConfig {
    fn default() -> (r: AppConfig)
        ensures
            r.active_alias@ == Seq::<char>::empty(),
            r.providers@.len() == 0,
            !r.diff_enabled,
            !r.show_cache_warning,
            r.context_1m is None,
            r.streaming_mode is None,
            r.language is None,
            r.theme is None,
            r.profiles.fable.provider@ == Seq::<char>::empty() && r.profiles.fable.model is None && r.profiles.fable.effort@ == Seq::<char>::empty(),
            r.profiles.opus.provider@ == Seq::<char>::empty() && r.profiles.opus.model is None && r.profiles.opus.effort@ == Seq::<char>::empty(),
            r.profiles.sonnet.provider@ == Seq::<char>::empty() && r.profiles.sonnet.model is None && r.profiles.sonnet.effort@ == Seq::<char>::empty(),
            r.profiles.haiku.provider@ == Seq::<char>::empty() && r.profiles.haiku.model is None && r.profiles.haiku.effort@ == Seq::<char>::empty(),
    {
        AppConfig {
            active_alias: String::new(),
            profiles: Profiles::default(),
            providers: Vec::new(),
            diff_enabled: false,
            show_cache_warning: false,
            context_1m: None,
            streaming_mode: None,
            language: None,
            theme: None,
        }
    }
}

impl Default for PeriConfig {
    fn default() -> (r: PeriConfig)
        ensures
            r.config.active_alias@ == Seq::<char>::empty(),
            r.config.providers@.len() == 0,
            !r.config.diff_enabled,
            !r.config.show_cache_warning,
            r.config.context_1m is None,
            r.config.streaming_mode is None,
            r.config.language is None,
    {
        PeriConfig { config: AppConfig::default() }
    }
}

/// The model a provider maps an alias to: the four profile aliases have a
/// field each, and an empty `fable` falls back to `opus`; other aliases
/// have none.
pub open spec fn model_for(m: ProviderModels, alias: Seq<char>) -> Option<Seq<char>> {
    if alias == "fable"@ {
        if m.fable@.len() == 0 { Some(m.opus@) } else { Some(m.fable@) }
    } else if alias == "opus"@ {
        Some(m.opus@)
    } else if alias == "sonnet"@ {
        Some(m.sonnet@)
    } else if alias == "haiku"@ {
        Some(m.haiku@)
    } else {
        None
    }
}

impl ProviderModels {
    /// The model name for a profile alias.
    pub fn get_model(&self, alias: &str) -> (r: Option<&String>)
        ensures
            match r {
                Some(s) => model_for(*self, alias@) == Some(s@),
                None => model_for(*self, alias@) is None,
            },
    {
        if str_eq(alias, "fable") {
            if self.fable.as_str().is_empty() { Some(&self.opus) } else { Some(&self.fable) }
        } else if str_eq(alias, "opus") {
            Some(&self.opus)
        } else if str_eq(alias, "sonnet") {
            Some(&self.sonnet)
        } else if str_eq(alias, "haiku") {
            Some(&self.haiku)
        } else {
            None
        }
    }
}

/// The profile named by an alias, if it is one of the four.
pub open spec fn profile_for(p: Profiles, alias: Seq<char>) -> Option<Profile> {
    if alias == "fable"@ {
        Some(p.fable)
    } else if alias == "opus"@ {
        Some(p.opus)
    } else if alias == "sonnet"@ {
        Some(p.sonnet)
    } else if alias == "haiku"@ {
        Some(p.haiku)
    } else {
        None
    }
}

impl Profiles {
    /// The profile of an alias.
    pub fn get(&self, alias: &str) -> (r: Option<&Profile>)
        ensures
            match r {
                Some(p) => profile_for(*self, alias@) == Some(*p),
                None => profile_for(*self, alias@) is None,
            },
    {
        if str_eq(alias, "fable") {
            Some(&self.fable)
        } else if str_eq(alias, "opus") {
            Some(&self.opus)
        } else if str_eq(alias, "sonnet") {
            Some(&self.sonnet)
        } else if str_eq(alias, "haiku") {
            Some(&self.haiku)
        } else {
            None
        }
    }
}


impl ProviderConfig {
    /// A copy of the provider.
    pub fn clone_provider(&self) -> (r: ProviderConfig)
        ensures
            r == *self,
    {
        ProviderConfig {
            id: self.id.clone(),
            provider_type: self.provider_type.clone(),
            api_key: self.api_key.clone(),
            base_url: self.base_url.clone(),
            api: self.api,
            models: ProviderModels {
                fable: self.models.fable.clone(),
                opus: self.models.opus.clone(),
                sonnet: self.models.sonnet.clone(),
                haiku: self.models.haiku.clone(),
            },
        }
    }
}

fn copy_opt_string(s: &Option<String>) -> (r: Option<String>)
    ensures
        r == *s,
{
    match s {
        Some(x) => Some(x.clone()),
        None => None,
    }
}

impl Profile {
    /// A copy of the profile.
    pub fn clone_profile(&self) -> (r: Profile)
        ensures
            r == *self,
    {
        Profile {
            provider: self.provider.clone(),
            model: copy_opt_string(&self.model),
            effort: self.effort.clone(),
            max_tokens: self.max_tokens,
            context_1m: self.context_1m,
        }
    }
}

impl PeriConfig {
    /// A copy of the settings (the provider list equal element by element).
    pub fn clone_config(&self) -> (r: PeriConfig)
        ensures
            r.config == (AppConfig { providers: r.config.providers, ..self.config }),
            r.config.providers@ == self.config.providers@,
    {
        let c = &self.config;
        let mut providers: Vec<ProviderConfig> = Vec::new();
        let mut i: usize = 0;
        while i < c.providers.len()
            invariant
                i <= c.providers@.len(),
                providers@ == c.providers@.take(i as int),
            decreases c.providers@.len() - i,
        {
            providers.push(c.providers[i].clone_provider());
            proof { assert(providers@ =~= c.providers@.take(i + 1)); }
            i = i + 1;
        }
        proof { assert(providers@ =~= c.providers@); }
        PeriConfig {
            config: AppConfig {
                active_alias: c.active_alias.clone(),
                profiles: Profiles {
                    fable: c.profiles.fable.clone_profile(),
                    opus: c.profiles.opus.clone_profile(),
                    sonnet: c.profiles.sonnet.clone_profile(),
                    haiku: c.profiles.haiku.clone_profile(),
                },
                providers,
                diff_enabled: c.diff_enabled,
                show_cache_warning: c.show_cache_warning,
                context_1m: c.context_1m,
                streaming_mode: copy_opt_string(&c.streaming_mode),
                language: copy_opt_string(&c.language),
                theme: copy_opt_string(&c.theme),
            },
        }
    }
}

/// Theme used when none was saved.
pub open spec fn default_theme_name() -> Seq<char> {
    "peri-dark"@
}

/// The saved theme's name, or the default theme's.
pub fn persisted_theme_name(cfg: &PeriConfig) -> (r: String)
    ensures
        r@ == match cfg.config.theme {
            Some(t) => t@,
            None => default_theme_name(),
        },
{
    match &cfg.config.theme {
        Some(t) => crate::profiles::clone_string(t),
        None => "peri-dark".to_string(),
    }
}

/// Records the chosen theme in the settings (the caller saves them).
pub fn set_theme(cfg: &mut PeriConfig, name: &str)
    ensures
        final(cfg).config.theme matches Some(t) && t@ == name@,
        *final(cfg) == (PeriConfig { config: AppConfig { theme: final(cfg).config.theme, ..old(cfg).config } }),
{
    cfg.config.theme = Some(name.to_string());
}

} // verus!
