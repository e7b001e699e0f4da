//! Model profiles: which provider and model an alias resolves to, and the
//! field edits of the model panel.
use vstd::prelude::*;
use crate::config::{
    model_for, profile_for, AppConfig, PeriConfig, Profile, ProfileView, Profiles, ProviderConfig,
    ProviderModels,
};
use crate::config_panel::{cycle_step, first_index};
use crate::text::str_eq;
use crate::keys::KeyCode;

verus! {

/// The provider ids, in order.
pub open spec fn provider_ids(ps: Seq<ProviderConfig>) -> Seq<Seq<char>> {
    ps.map_values(|p: ProviderConfig| p.id@)
}

/// Position of the first provider with id `id`, or -1.
pub open spec fn find_provider(ps: Seq<ProviderConfig>, id: Seq<char>) -> int {
    first_index(provider_ids(ps), id)
}

/// The provider a profile uses: the first provider when the profile names
/// none, else the first with the named id (-1 when there is none).
pub open spec fn provider_index(c: AppConfig, pf: Profile) -> int {
    if pf.provider@.len() == 0 {
        if c.providers@.len() > 0 { 0 } else { -1 }
    } else {
        find_provider(c.providers@, pf.provider@)
    }
}

/// A text that counts only when it is not empty.
pub open spec fn nonempty(o: Option<Seq<char>>) -> Option<Seq<char>> {
    match o {
        Some(s) => if s.len() > 0 { Some(s) } else { None },
        None => None,
    }
}

/// The model an alias runs: the profile's own model, else the provider's
/// mapping for the alias, else the alias itself.
pub open spec fn resolved_model(c: AppConfig, alias: Seq<char>) -> Seq<char> {
    match profile_for(c.profiles, alias) {
        Some(pf) => match nonempty(pf@.model) {
            Some(m) => m,
            None => {
                let i = provider_index(c, pf);
                if i >= 0 {
                    match nonempty(model_for(c.providers@[i].models, alias)) {
                        Some(m) => m,
                        None => alias,
                    }
                } else {
                    alias
                }
            },
        },
        None => alias,
    }
}

/// The provider type shown for the active profile: its provider's type, else
/// the provider id the profile names, else the alias.
pub open spec fn derived_provider_type(c: AppConfig) -> Seq<char> {
    let a = c.active_alias@;
    match profile_for(c.profiles, a) {
        Some(pf) => {
            let i = provider_index(c, pf);
            if i >= 0 { c.providers@[i].provider_type@ } else { pf.provider@ }
        },
        None => a,
    }
}

/// The effort of the active profile, "xhigh" when unset.
pub open spec fn derived_effort(c: AppConfig) -> Seq<char> {
    match profile_for(c.profiles, c.active_alias@) {
        Some(pf) => if pf.effort@.len() > 0 { pf.effort@ } else { "xhigh"@ },
        None => "xhigh"@,
    }
}

pub(crate) fn clone_string(s: &String) -> (r: String)
    ensures
        r@ == s@,
{
    s.clone()
}

fn clone_opt_string(s: &Option<String>) -> (r: Option<String>)
    ensures
        match r { Some(x) => Some(x@), None => None } == match *s { Some(x) => Some(x@), None => None::<Seq<char>> },
{
    match s {
        Some(x) => Some(x.clone()),
        None => None,
    }
}

fn clone_profile(p: &Profile) -> (r: Profile)
    ensures
        r@ == p@,
{
    Profile {
        provider: clone_string(&p.provider),
        model: clone_opt_string(&p.model),
        effort: clone_string(&p.effort),
        max_tokens: p.max_tokens,
        context_1m: p.context_1m,
    }
}

/// Position of the first provider with id `id`.
pub fn find_provider_exec(ps: &Vec<ProviderConfig>, id: &str) -> (r: Option<usize>)
    ensures
        match r {
            Some(i) => i as int == find_provider(ps@, id@) && i < ps@.len(),
            None => find_provider(ps@, id@) == -1,
        },
{
    let ghost ids = provider_ids(ps@);
    proof { crate::config_panel::lemma_first_index(ids, id@); }
    let mut i: usize = 0;
    while i < ps.len()
        invariant
            ids == provider_ids(ps@),
            i <= ps@.len(),
            forall|j: int| 0 <= j < i ==> ids[j] != id@,
        decreases ps@.len() - i,
    {
        if str_eq(ps[i].id.as_str(), id) {
            proof {
                crate::config_panel::lemma_first_index(ids, id@);
                assert(ids[i as int] == id@);
                if first_index(ids, id@) != i {
                    assert(false);
                }
            }
            return Some(i);
        }
        i = i + 1;
    }
    None
}

fn provider_of<'a>(c: &'a AppConfig, pf: &Profile) -> (r: Option<&'a ProviderConfig>)
    ensures
        match r {
            Some(p) => provider_index(*c, *pf) >= 0 && *p == c.providers@[provider_index(*c, *pf)],
            None => provider_index(*c, *pf) < 0,
        },
{
    if pf.provider.as_str().is_empty() {
        if c.providers.len() > 0 { Some(&c.providers[0]) } else { None }
    } else {
        match find_provider_exec(&c.providers, pf.provider.as_str()) {
            Some(i) => Some(&c.providers[i]),
            None => None,
        }
    }
}

fn nonempty_model(m: Option<&String>) -> (r: Option<&String>)
    ensures
        match r { Some(s) => Some(s@), None => None } == nonempty(match m { Some(s) => Some(s@), None => None }),
{
    match m {
        Some(s) => if s.as_str().is_empty() { None } else { Some(s) },
        None => None,
    }
}

/// The model an alias runs.
pub fn resolve_model_name_for_alias(app_config: &AppConfig, alias: &str) -> (r: String)
    ensures
        r@ == resolved_model(*app_config, alias@),
{
    match app_config.profiles.get(alias) {
        Some(pf) => match nonempty_model(pf.model.as_ref()) {
            Some(m) => clone_string(m),
            None => match provider_of(app_config, pf) {
                Some(p) => match nonempty_model(p.models.get_model(alias)) {
                    Some(m) => clone_string(m),
                    None => alias.to_string(),
                },
                None => alias.to_string(),
            },
        },
        None => alias.to_string(),
    }
}

/// Provider type, alias, model name and effort of the active profile, for
/// the status bar.
pub fn derive_provider_and_model(peri_config: &PeriConfig) -> (r: (String, String, String, String))
    ensures
        r.0@ == derived_provider_type(peri_config.config),
        r.1@ == peri_config.config.active_alias@,
        r.2@ == resolved_model(peri_config.config, peri_config.config.active_alias@),
        r.3@ == derived_effort(peri_config.config),
{
    let cfg = &peri_config.config;
    let active_alias = clone_string(&cfg.active_alias);
    let provider_type = match cfg.profiles.get(active_alias.as_str()) {
        Some(pf) => match provider_of(cfg, pf) {
            Some(p) => clone_string(&p.provider_type),
            None => clone_string(&pf.provider),
        },
        None => clone_string(&active_alias),
    };
    let model_name = resolve_model_name_for_alias(cfg, active_alias.as_str());
    let effort = match cfg.profiles.get(active_alias.as_str()) {
        Some(pf) => if pf.effort.as_str().is_empty() { "xhigh".to_string() } else { clone_string(&pf.effort) },
        None => "xhigh".to_string(),
    };
    (provider_type, active_alias, model_name, effort)
}


/// The profile aliases, in display order.
pub open spec fn profile_keys() -> Seq<Seq<char>> {
    seq!["fable"@, "opus"@, "sonnet"@, "haiku"@]
}

/// The `i`-th profile alias.
pub fn profile_key(i: usize) -> (r: &'static str)
    requires
        i < 4,
    ensures
        r@ == profile_keys()[i as int],
{
    if i == 0 { "fable" } else if i == 1 { "opus" } else if i == 2 { "sonnet" } else { "haiku" }
}

pub const FIELD_PROVIDER: usize = 0;
pub const FIELD_MODEL: usize = 1;
pub const FIELD_EFFORT: usize = 2;
pub const FIELD_MAX_TOKENS: usize = 3;
pub const FIELD_CONTEXT_1M: usize = 4;
/// Number of editable profile fields.
pub const FIELD_COUNT: usize = 5;

/// The effort levels, lowest first.
pub open spec fn effort_levels() -> Seq<Seq<char>> {
    seq!["low"@, "medium"@, "high"@, "xhigh"@, "max"@]
}

fn effort_level(i: usize) -> (r: &'static str)
    requires
        i < 5,
    ensures
        r@ == effort_levels()[i as int],
{
    if i == 0 { "low" } else if i == 1 { "medium" } else if i == 2 { "high" } else if i == 3 { "xhigh" } else { "max" }
}

/// The max-token presets.
pub open spec fn token_presets() -> Seq<u32> {
    seq![4096u32, 8192u32, 16000u32, 32000u32, 64000u32]
}

/// Position of a max-token value among the presets, else 0.
pub open spec fn token_index(v: u32) -> int {
    if v == 4096 { 0 } else if v == 8192 { 1 } else if v == 16000 { 2 } else if v == 32000 { 3 } else if v == 64000 { 4 } else { 0 }
}

/// Appends a model name unless it is empty or already listed.
pub open spec fn push_unique(acc: Seq<Seq<char>>, m: Seq<char>) -> Seq<Seq<char>> {
    if m.len() > 0 && !acc.contains(m) { acc.push(m) } else { acc }
}

/// The models the model field cycles through: the provider's opus, sonnet,
/// haiku and fable models (no empty or repeated name), with the profile's own
/// model in front when it is set and not among them.
pub open spec fn model_candidates(models: ProviderModels, current: Seq<char>) -> Seq<Seq<char>> {
    let base = push_unique(push_unique(push_unique(push_unique(Seq::empty(), models.opus@), models.sonnet@), models.haiku@), models.fable@);
    if current.len() > 0 && !base.contains(current) { seq![current] + base } else { base }
}

/// A found position, or 0.
pub open spec fn or_zero(i: int) -> int {
    if i >= 0 { i } else { 0 }
}

/// The profile as the panel reads it (an unknown alias reads as the defaults).
pub open spec fn current_profile(c: AppConfig, alias: Seq<char>) -> ProfileView {
    match profile_for(c.profiles, alias) {
        Some(p) => p@,
        None => ProfileView { provider: Seq::empty(), model: None, effort: "xhigh"@, max_tokens: 32000, context_1m: false },
    }
}

/// The result of editing a profile field: whether the settings are written,
/// and the profile's new contents.
pub open spec fn field_edit(c: AppConfig, alias: Seq<char>, field: int, forward: bool) -> (bool, ProfileView) {
    let cur = current_profile(c, alias);
    let ps = c.providers@;
    let cur_model = match cur.model { Some(m) => m, None => Seq::<char>::empty() };
    if field == FIELD_PROVIDER {
        let ids = provider_ids(ps);
        if ids.len() == 0 {
            (false, cur)
        } else {
            let next = ids[cycle_step(or_zero(first_index(ids, cur.provider)), ids.len() as int, forward)];
            let j = find_provider(ps, next);
            (true, ProfileView { provider: next, model: nonempty(model_for(ps[j].models, alias)), ..cur })
        }
    } else if field == FIELD_MODEL {
        let i = find_provider(ps, cur.provider);
        if i < 0 {
            (false, cur)
        } else {
            let cands = model_candidates(ps[i].models, cur_model);
            if cands.len() == 0 {
                (false, cur)
            } else {
                let next = cands[cycle_step(or_zero(first_index(cands, cur_model)), cands.len() as int, forward)];
                (true, ProfileView { model: Some(next), ..cur })
            }
        }
    } else if field == FIELD_EFFORT {
        let next = effort_levels()[cycle_step(or_zero(first_index(effort_levels(), cur.effort)), 5, forward)];
        (true, ProfileView { effort: next, ..cur })
    } else if field == FIELD_MAX_TOKENS {
        (true, ProfileView { max_tokens: token_presets()[cycle_step(token_index(cur.max_tokens), 5, forward)], ..cur })
    } else if field == FIELD_CONTEXT_1M {
        (true, ProfileView { context_1m: !cur.context_1m, ..cur })
    } else {
        (false, cur)
    }
}

/// The profile view of an alias, if it names one of the four.
pub open spec fn profile_view_for(ps: Profiles, alias: Seq<char>) -> Option<ProfileView> {
    match profile_for(ps, alias) {
        Some(p) => Some(p@),
        None => None,
    }
}

/// Replaces the profile of an alias (nothing happens for other aliases).
fn put_profile(ps: &mut Profiles, alias: &str, p: Profile)
    ensures
        forall|a: Seq<char>| #[trigger] profile_view_for(*final(ps), a)
            == if a == alias@ && profile_for(*old(ps), alias@) is Some { Some(p@) } else { profile_view_for(*old(ps), a) },
{
    if str_eq(alias, "fable") {
        ps.fable = p;
    } else if str_eq(alias, "opus") {
        ps.opus = p;
    } else if str_eq(alias, "sonnet") {
        ps.sonnet = p;
    } else if str_eq(alias, "haiku") {
        ps.haiku = p;
    }
}

fn current_profile_exec(c: &AppConfig, alias: &str) -> (r: Profile)
    ensures
        r@ == current_profile(*c, alias@),
{
    match c.profiles.get(alias) {
        Some(p) => clone_profile(p),
        None => Profile { provider: String::new(), model: None, effort: "xhigh".to_string(), max_tokens: 32000, context_1m: false },
    }
}

fn strings_contain(v: &Vec<String>, s: &String) -> (r: bool)
    ensures
        r == crate::ask_user::strings_view(v@).contains(s@),
{
    let ghost sv = crate::ask_user::strings_view(v@);
    let mut i: usize = 0;
    while i < v.len()
        invariant
            sv == crate::ask_user::strings_view(v@),
            i <= v@.len(),
            forall|j: int| 0 <= j < i ==> sv[j] != s@,
        decreases v@.len() - i,
    {
        if str_eq(v[i].as_str(), s.as_str()) {
            assert(sv[i as int] == s@);
            return true;
        }
        i = i + 1;
    }
    false
}

fn push_unique_exec(acc: &mut Vec<String>, m: &String)
    ensures
        crate::ask_user::strings_view(final(acc)@) == push_unique(crate::ask_user::strings_view(old(acc)@), m@),
{
    if !m.as_str().is_empty() && !strings_contain(acc, m) {
        let ghost before = crate::ask_user::strings_view(acc@);
        acc.push(clone_string(m));
        assert(crate::ask_user::strings_view(acc@) =~= before.push(m@));
    }
}

fn model_candidates_exec(models: &ProviderModels, current: &String) -> (r: Vec<String>)
    ensures
        crate::ask_user::strings_view(r@) == model_candidates(*models, current@),
{
    let mut v: Vec<String> = Vec::new();
    assert(crate::ask_user::strings_view(v@) =~= Seq::<Seq<char>>::empty());
    push_unique_exec(&mut v, &models.opus);
    push_unique_exec(&mut v, &models.sonnet);
    push_unique_exec(&mut v, &models.haiku);
    push_unique_exec(&mut v, &models.fable);
    if !current.as_str().is_empty() && !strings_contain(&v, current) {
        let ghost before = crate::ask_user::strings_view(v@);
        v.insert(0, clone_string(current));
        assert(crate::ask_user::strings_view(v@) =~= seq![current@] + before);
    }
    v
}

fn find_string(v: &Vec<String>, s: &String) -> (r: usize)
    ensures
        r as int == or_zero(first_index(crate::ask_user::strings_view(v@), s@)),
        v@.len() > 0 ==> r < v@.len(),
{
    let ghost sv = crate::ask_user::strings_view(v@);
    proof { crate::config_panel::lemma_first_index(sv, s@); }
    let mut i: usize = 0;
    while i < v.len()
        invariant
            sv == crate::ask_user::strings_view(v@),
            i <= v@.len(),
            forall|j: int| 0 <= j < i ==> sv[j] != s@,
        decreases v@.len() - i,
    {
        if str_eq(v[i].as_str(), s.as_str()) {
            proof {
                crate::config_panel::lemma_first_index(sv, s@);
                assert(sv[i as int] == s@);
                if first_index(sv, s@) != i {
                    assert(false);
                }
            }
            return i;
        }
        i = i + 1;
    }
    0
}

fn find_effort(e: &String) -> (r: usize)
    ensures
        r as int == or_zero(first_index(effort_levels(), e@)),
        r < 5,
{
    proof { crate::config_panel::lemma_first_index(effort_levels(), e@); }
    let mut i: usize = 0;
    while i < 5
        invariant
            i <= 5,
            forall|j: int| 0 <= j < i ==> effort_levels()[j] != e@,
        decreases 5 - i,
    {
        if str_eq(effort_level(i), e.as_str()) {
            proof {
                crate::config_panel::lemma_first_index(effort_levels(), e@);
                if first_index(effort_levels(), e@) != i {
                    assert(false);
                }
            }
            return i;
        }
        i = i + 1;
    }
    0
}

fn token_preset(i: usize) -> (r: u32)
    requires
        i < 5,
    ensures
        r == token_presets()[i as int],
{
    if i == 0 { 4096 } else if i == 1 { 8192 } else if i == 2 { 16000 } else if i == 3 { 32000 } else { 64000 }
}

fn step(idx: usize, len: usize, forward: bool) -> (r: usize)
    requires
        idx < len,
    ensures
        r as int == cycle_step(idx as int, len as int, forward),
        r < len,
{
    if forward { crate::list_nav::cycle_next(idx, len) } else { crate::list_nav::cycle_previous(idx, len) }
}

/// `c1` is `c0` after editing field `field` of profile `alias` one step
/// (see `field_edit`): only that profile changes, and only when the edit
/// asks for a save.
pub open spec fn field_edited(c0: AppConfig, c1: AppConfig, alias: Seq<char>, field: int, forward: bool) -> bool {
    let e = field_edit(c0, alias, field, forward);
    &&& forall|a: Seq<char>| #[trigger] profile_view_for(c1.profiles, a)
        == if e.0 && a == alias && profile_for(c0.profiles, alias) is Some {
            Some(e.1)
        } else {
            profile_view_for(c0.profiles, a)
        }
    &&& c1 == (AppConfig { profiles: c1.profiles, ..c0 })
}

/// Edits one field of an alias's profile, forward or back: provider (taking
/// the new provider's model for the alias, if any), model (among the
/// provider's models), effort, max tokens, or the 1M-context switch.
/// Returns whether the settings should be written; nothing but that profile
/// changes.
pub fn edit_field(cfg: &mut AppConfig, alias: &str, field: usize, forward: bool) -> (save: bool)
    ensures
        save == field_edit(*old(cfg), alias@, field as int, forward).0,
        field_edited(*old(cfg), *final(cfg), alias@, field as int, forward),
{
    let ghost c0 = *cfg;
    let mut cur = current_profile_exec(cfg, alias);
    let cur_model: String = match &cur.model { Some(m) => clone_string(m), None => String::new() };
    if field == FIELD_PROVIDER {
        let n = cfg.providers.len();
        if n == 0 {
            return false;
        }
        let idx = match find_provider_exec(&cfg.providers, cur.provider.as_str()) { Some(i) => i, None => 0 };
        let k = step(idx, n, forward);
        let next = clone_string(&cfg.providers[k].id);
        proof {
            assert(provider_ids(c0.providers@)[k as int] == next@);
            crate::config_panel::lemma_first_index(provider_ids(c0.providers@), next@);
        }
        let j = match find_provider_exec(&cfg.providers, next.as_str()) { Some(j) => j, None => k };
        let mapped = match nonempty_model(cfg.providers[j].models.get_model(alias)) {
            Some(m) => Some(clone_string(m)),
            None => None,
        };
        cur.provider = next;
        cur.model = mapped;
    } else if field == FIELD_MODEL {
        let i = match find_provider_exec(&cfg.providers, cur.provider.as_str()) {
            Some(i) => i,
            None => { return false; },
        };
        let cands = model_candidates_exec(&cfg.providers[i].models, &cur_model);
        if cands.len() == 0 {
            return false;
        }
        let idx = find_string(&cands, &cur_model);
        let k = step(idx, cands.len(), forward);
        cur.model = Some(clone_string(&cands[k]));
    } else if field == FIELD_EFFORT {
        let idx = find_effort(&cur.effort);
        let k = step(idx, 5, forward);
        cur.effort = effort_level(k).to_string();
    } else if field == FIELD_MAX_TOKENS {
        let m = cur.max_tokens;
        let idx: usize = if m == 4096 { 0 } else if m == 8192 { 1 } else if m == 16000 { 2 } else if m == 32000 { 3 } else if m == 64000 { 4 } else { 0 };
        let k = step(idx, 5, forward);
        cur.max_tokens = token_preset(k);
    } else if field == FIELD_CONTEXT_1M {
        cur.context_1m = !cur.context_1m;
    } else {
        return false;
    }
    proof {
        assert(cur@ == field_edit(c0, alias@, field as int, forward).1);
    }
    put_profile(&mut cfg.profiles, alias, cur);
    true
}

/// `c1` is `c0` with profile `idx` of the four made active (unchanged for
/// an index past them).
pub open spec fn alias_switched(c0: AppConfig, c1: AppConfig, idx: int) -> bool {
    if 0 <= idx < 4 {
        c1.active_alias@ == profile_keys()[idx] && c1 == (AppConfig { active_alias: c1.active_alias, ..c0 })
    } else {
        c1 == c0
    }
}

/// Makes the `idx`-th profile the active one (an index past the four does
/// nothing). Returns whether the settings should be written.
pub fn switch_active_alias(cfg: &mut AppConfig, idx: usize) -> (save: bool)
    ensures
        save == (idx < 4),
        alias_switched(*old(cfg), *final(cfg), idx as int),
{
    if idx >= 4 {
        return false;
    }
    let key = profile_key(idx);
    if !str_eq(cfg.active_alias.as_str(), key) {
        cfg.active_alias = key.to_string();
    }
    true
}

/// What a key on the model panel asks of the host.
#[derive(Debug, PartialEq, Eq, Structural)]
pub enum ModelKeyOutcome {
    /// The panel does not take the key (Esc on the profile list closes the panel).
    Ignored,
    /// The key was used; nothing to write.
    Consumed,
    /// The settings changed and should be written and pushed.
    Save,
}

/// Cursor state of the model panel.
#[derive(Debug)]
pub struct ModelPanelState {
    /// Highlighted profile on the left.
    pub cursor: usize,
    /// Highlighted field on the right.
    pub right_cursor: usize,
    /// Whether the field list has the keyboard.
    pub right_focus: bool,
}

/// What a key does to the model panel and the settings (see `model_panel_on_key`).
pub open spec fn model_panel_step(s: ModelPanelState, t: ModelPanelState, c0: AppConfig, c1: AppConfig,
    alias: Seq<char>, code: crate::keys::KeyCode, r: ModelKeyOutcome) -> bool {
    match code {
        KeyCode::Esc => c1 == c0 && if s.right_focus {
            t == (ModelPanelState { right_focus: false, ..s }) && r == ModelKeyOutcome::Consumed
        } else {
            t == s && r == ModelKeyOutcome::Ignored
        },
        KeyCode::Up | KeyCode::Down => if s.right_focus {
            let rc = if code == KeyCode::Up {
                crate::list_nav::prev_sel(s.right_cursor as int)
            } else {
                crate::list_nav::next_sel(s.right_cursor as int, FIELD_COUNT as int)
            };
            t == (ModelPanelState { right_cursor: rc as usize, ..s }) && c1 == c0 && r == ModelKeyOutcome::Consumed
        } else {
            let c = if code == KeyCode::Up {
                crate::list_nav::prev_sel(s.cursor as int)
            } else {
                crate::list_nav::next_sel(s.cursor as int, 4)
            };
            &&& t == (ModelPanelState { cursor: c as usize, ..s })
            &&& alias_switched(c0, c1, c)
            &&& r == (if c < 4 { ModelKeyOutcome::Save } else { ModelKeyOutcome::Consumed })
        },
        KeyCode::Tab => t == (ModelPanelState { right_focus: !s.right_focus, ..s }) && c1 == c0 && r == ModelKeyOutcome::Consumed,
        KeyCode::Right | KeyCode::Left => if s.right_focus {
            let forward = code == KeyCode::Right;
            &&& t == s
            &&& field_edited(c0, c1, alias, s.right_cursor as int, forward)
            &&& r == (if field_edit(c0, alias, s.right_cursor as int, forward).0 { ModelKeyOutcome::Save } else { ModelKeyOutcome::Consumed })
        } else {
            t == (ModelPanelState { right_focus: code == KeyCode::Right, ..s }) && c1 == c0 && r == ModelKeyOutcome::Consumed
        },
        _ => t == s && c1 == c0 && r == ModelKeyOutcome::Consumed,
    }
}

/// Handles a key on the model panel. On the profile list, Up/Down move and
/// make the highlighted profile active, Right or Tab go to the fields; on the
/// fields, Up/Down move, Right/Left edit forward/back, Esc/Tab go back.
pub fn model_panel_on_key(st: &mut ModelPanelState, cfg: &mut AppConfig, alias: &str, code: crate::keys::KeyCode) -> (r: ModelKeyOutcome)
    ensures
        model_panel_step(*old(st), *final(st), *old(cfg), *final(cfg), alias@, code, r),
{
    match code {
        crate::keys::KeyCode::Esc => {
            if st.right_focus {
                st.right_focus = false;
                ModelKeyOutcome::Consumed
            } else {
                ModelKeyOutcome::Ignored
            }
        },
        crate::keys::KeyCode::Up => {
            if st.right_focus {
                st.right_cursor = crate::list_nav::previous_selection(st.right_cursor);
                ModelKeyOutcome::Consumed
            } else {
                let c = crate::list_nav::previous_selection(st.cursor);
                st.cursor = c;
                if switch_active_alias(cfg, c) { ModelKeyOutcome::Save } else { ModelKeyOutcome::Consumed }
            }
        },
        crate::keys::KeyCode::Down => {
            if st.right_focus {
                st.right_cursor = crate::list_nav::next_selection(st.right_cursor, FIELD_COUNT);
                ModelKeyOutcome::Consumed
            } else {
                let c = crate::list_nav::next_selection(st.cursor, 4);
                st.cursor = c;
                if switch_active_alias(cfg, c) { ModelKeyOutcome::Save } else { ModelKeyOutcome::Consumed }
            }
        },
        crate::keys::KeyCode::Tab => {
            st.right_focus = !st.right_focus;
            ModelKeyOutcome::Consumed
        },
        crate::keys::KeyCode::Right => {
            if st.right_focus {
                if edit_field(cfg, alias, st.right_cursor, true) { ModelKeyOutcome::Save } else { ModelKeyOutcome::Consumed }
            } else {
                st.right_focus = true;
                ModelKeyOutcome::Consumed
            }
        },
        crate::keys::KeyCode::Left => {
            if st.right_focus {
                if edit_field(cfg, alias, st.right_cursor, false) { ModelKeyOutcome::Save } else { ModelKeyOutcome::Consumed }
            } else {
                st.right_focus = false;
                ModelKeyOutcome::Consumed
            }
        },
        _ => ModelKeyOutcome::Consumed,
    }
}

proof fn lemma_effort_index(k: int)
    requires
        0 <= k < 5,
    ensures
        first_index(effort_levels(), effort_levels()[k]) == k,
{
    reveal_strlit("low");
    reveal_strlit("medium");
    reveal_strlit("high");
    reveal_strlit("xhigh");
    reveal_strlit("max");
    let l = effort_levels();
    assert(l[0][0] != l[4][0]);
    assert forall|i: int, j: int| 0 <= i < j < 5 implies l[i] != l[j] by {
        if i == 0 && j == 4 {
            assert(l[i][0] != l[j][0]);
        } else if i == 1 && j == 3 {
            assert(l[i][0] != l[j][0]);
        } else {
            assert(l[i].len() != l[j].len() || l[i][0] != l[j][0]);
        }
    }
    crate::config_panel::lemma_first_index(l, l[k]);
}

/// Editing the effort, the max-token preset or the 1M-context switch of a
/// profile one step and then one step back restores the profile (for an
/// effort among the levels and a max-token value among the presets), and no
/// other setting changes.
pub proof fn law_edit_field_round_trip(c0: AppConfig, c1: AppConfig, c2: AppConfig, alias: Seq<char>, field: int, forward: bool)
    requires
        field == FIELD_EFFORT || field == FIELD_MAX_TOKENS || field == FIELD_CONTEXT_1M,
        profile_for(c0.profiles, alias) is Some,
        field == FIELD_EFFORT ==> effort_levels().contains(current_profile(c0, alias).effort),
        field == FIELD_MAX_TOKENS ==> token_presets().contains(current_profile(c0, alias).max_tokens),
        field_edited(c0, c1, alias, field, forward),
        field_edited(c1, c2, alias, field, !forward),
    ensures
        forall|a: Seq<char>| #[trigger] profile_view_for(c2.profiles, a) == profile_view_for(c0.profiles, a),
        c2 == (AppConfig { profiles: c2.profiles, ..c0 }),
{
    let p0 = current_profile(c0, alias);
    let e1 = field_edit(c0, alias, field, forward);
    assert(profile_view_for(c1.profiles, alias) == Some(e1.1));
    assert(current_profile(c1, alias) == e1.1);
    let e2 = field_edit(c1, alias, field, !forward);
    if field == FIELD_EFFORT {
        let k = choose|k: int| 0 <= k < 5 && effort_levels()[k] == p0.effort;
        lemma_effort_index(k);
        let j = cycle_step(k, 5, forward);
        assert(0 <= j < 5 && cycle_step(j, 5, !forward) == k) by (nonlinear_arith)
            requires 0 <= k < 5, j == (if forward { (k + 1) % 5 } else { (k + 5 - 1) % 5 }),
                cycle_step(j, 5, !forward) == (if !forward { (j + 1) % 5 } else { (j + 5 - 1) % 5 });
        lemma_effort_index(j);
        assert(e2.1 == p0);
    } else if field == FIELD_MAX_TOKENS {
        let k = choose|k: int| 0 <= k < 5 && token_presets()[k] == p0.max_tokens;
        assert(token_index(p0.max_tokens) == k);
        let j = cycle_step(k, 5, forward);
        assert(0 <= j < 5 && cycle_step(j, 5, !forward) == k) by (nonlinear_arith)
            requires 0 <= k < 5, j == (if forward { (k + 1) % 5 } else { (k + 5 - 1) % 5 }),
                cycle_step(j, 5, !forward) == (if !forward { (j + 1) % 5 } else { (j + 5 - 1) % 5 });
        assert(token_index(token_presets()[j]) == j);
        assert(e2.1 == p0);
    } else {
        assert(e2.1 == p0);
    }
    assert forall|a: Seq<char>| #[trigger] profile_view_for(c2.profiles, a) == profile_view_for(c0.profiles, a) by {
        if a == alias {
            assert(profile_view_for(c2.profiles, a) == Some(e2.1));
        }
    }
}

} // verus!
