//! Plugin marketplaces as the plugin panel lists them: the state of each
//! marketplace's cached manifest, how many of its plugins are installed, and
//! the discover list built from the manifests' plugin entries.
use vstd::prelude::*;
use crate::plugin::DiscoverItem;
use crate::profiles::clone_string;
use crate::text::{append_str, str_eq};

verus! {

/// State of a marketplace's cached manifest.
#[derive(Debug, Clone, Copy, PartialEq, Eq, Structural)]
pub enum MsStatus {
    Fresh,
    Cached,
    Fetching,
    Stale,
    Failed,
    NotFound,
}

/// A marketplace as the marketplace list shows it.
#[derive(Debug, Clone)]
pub struct MsEntry {
    pub name: String,
    pub source_label: String,
    pub plugin_count: usize,
    pub installed_count: usize,
    pub status: MsStatus,
    pub last_updated: Option<String>,
    pub auto_update: bool,
}

/// Age after which a cached manifest counts as stale: one day.
pub const STALE_AFTER_SECS: u64 = 86400;

/// The state of a marketplace: a manifest that is there but cannot be read
/// or parsed has failed; without an install location or a manifest it is
/// not found; a manifest older than a day is stale; else it is cached.
/// `manifest_age_secs` is none when the manifest's age is unknown.
pub fn marketplace_status(has_install_location: bool, manifest_found: bool, manifest_age_secs: Option<u64>, manifest_parsed: bool) -> (r: MsStatus)
    ensures
        r == if manifest_found && !manifest_parsed {
            MsStatus::Failed
        } else if !has_install_location || !manifest_found {
            MsStatus::NotFound
        } else if (match manifest_age_secs { Some(a) => a > STALE_AFTER_SECS, None => false }) {
            MsStatus::Stale
        } else {
            MsStatus::Cached
        },
{
    let mut status = if !has_install_location || !manifest_found { MsStatus::NotFound } else { MsStatus::Cached };
    if status == MsStatus::Cached {
        if let Some(age) = manifest_age_secs {
            if age > STALE_AFTER_SECS {
                status = MsStatus::Stale;
            }
        }
    }
    if manifest_found && !manifest_parsed {
        status = MsStatus::Failed;
    }
    status
}

/// Position of the first `@` at or after `i`, or the length when there is none.
pub open spec fn first_at_from(s: Seq<char>, i: int) -> int
    decreases s.len() - i,
{
    if i < 0 || i >= s.len() {
        s.len() as int
    } else if s[i] == '@' {
        i
    } else {
        first_at_from(s, i + 1)
    }
}

/// The marketplace part of a plugin id `name@marketplace`: what follows the
/// first `@`, empty when there is none.
pub open spec fn id_marketplace(id: Seq<char>) -> Seq<char> {
    let k = first_at_from(id, 0);
    if k < id.len() { id.skip(k + 1) } else { Seq::empty() }
}

proof fn lemma_first_at_bounds(s: Seq<char>, i: int)
    requires
        0 <= i <= s.len(),
    ensures
        i <= first_at_from(s, i) <= s.len(),
    decreases s.len() - i,
{
    if i < s.len() && s[i] != '@' {
        lemma_first_at_bounds(s, i + 1);
    }
}

/// The marketplace a plugin id belongs to.
pub fn marketplace_of_plugin(id: &str) -> (r: String)
    ensures
        r@ == id_marketplace(id@),
{
    let chars = crate::text::chars_of(id);
    proof { lemma_first_at_bounds(chars@, 0); }
    let mut i: usize = 0;
    while i < chars.len() && chars[i] != '@'
        invariant
            i <= chars@.len(),
            first_at_from(chars@, i as int) == first_at_from(chars@, 0),
        decreases chars@.len() - i,
    {
        i = i + 1;
    }
    let mut r = String::new();
    if i < chars.len() {
        let mut j: usize = i + 1;
        while j < chars.len()
            invariant
                i < j <= chars@.len(),
                r@ == chars@.subrange(i + 1, j as int),
            decreases chars@.len() - j,
        {
            crate::text::push_char(&mut r, chars[j]);
            proof { assert(chars@.subrange(i + 1, j + 1) =~= chars@.subrange(i + 1, j as int).push(chars@[j as int])); }
            j = j + 1;
        }
        proof { assert(chars@.subrange(i + 1, chars@.len() as int) =~= chars@.skip(i + 1)); }
    }
    r
}

/// Number of the first `n` installed plugin ids that belong to marketplace `name`.
pub open spec fn installed_in(ids: Seq<String>, name: Seq<char>, n: int) -> int
    decreases n,
{
    if n <= 0 {
        0
    } else {
        installed_in(ids, name, n - 1) + if id_marketplace(ids[n - 1]@) == name { 1int } else { 0int }
    }
}

proof fn lemma_installed_in_le(ids: Seq<String>, name: Seq<char>, n: int)
    requires
        0 <= n,
    ensures
        0 <= installed_in(ids, name, n) <= n,
    decreases n,
{
    if n > 0 {
        lemma_installed_in_le(ids, name, n - 1);
    }
}

/// How many installed plugins come from marketplace `name`.
pub fn installed_count(ids: &Vec<String>, name: &str) -> (r: usize)
    ensures
        r as int == installed_in(ids@, name@, ids@.len() as int),
{
    let mut c: usize = 0;
    let mut i: usize = 0;
    while i < ids.len()
        invariant
            i <= ids@.len(),
            c as int == installed_in(ids@, name@, i as int),
        decreases ids@.len() - i,
    {
        proof { lemma_installed_in_le(ids@, name@, i as int); }
        let m = marketplace_of_plugin(ids[i].as_str());
        if str_eq(m.as_str(), name) {
            c = c + 1;
        }
        i = i + 1;
    }
    c
}

/// Where a marketplace comes from.
#[derive(Debug, Clone, Copy, PartialEq, Eq, Structural)]
pub enum SourceKind {
    GitHub,
    Git,
    Url,
    Directory,
    File,
    Npm,
}

/// The source as the marketplace list shows it: GitHub repositories, git
/// URLs and npm packages get a prefix; URLs and paths show as they are.
pub open spec fn source_text(kind: SourceKind, value: Seq<char>) -> Seq<char> {
    match kind {
        SourceKind::GitHub => "github:"@ + value,
        SourceKind::Git => "git:"@ + value,
        SourceKind::Npm => "npm:"@ + value,
        _ => value,
    }
}

/// The label of a marketplace's source.
pub fn source_label(kind: SourceKind, value: &str) -> (r: String)
    ensures
        r@ == source_text(kind, value@),
{
    let mut r = match kind {
        SourceKind::GitHub => "github:".to_string(),
        SourceKind::Git => "git:".to_string(),
        SourceKind::Npm => "npm:".to_string(),
        _ => String::new(),
    };
    append_str(&mut r, value);
    r
}

/// A plugin entry of a marketplace manifest, its fields as read (a missing
/// name reads as empty; the author is a plain name or the name of an author
/// object).
#[derive(Debug, Clone)]
pub struct ManifestPlugin {
    pub name: String,
    pub version: Option<String>,
    pub description: Option<String>,
    pub author: Option<String>,
}

/// The author field of a manifest entry as written: plain text, or a record
/// with (or without) a textual `name`.
#[derive(Debug, Clone)]
pub enum AuthorField {
    Text(String),
    Record(Option<String>),
}

/// The author a manifest entry names: the text itself, or the record's name.
pub fn author_name(a: Option<AuthorField>) -> (r: Option<String>)
    ensures
        r == match a {
            Some(AuthorField::Text(t)) => Some(t),
            Some(AuthorField::Record(n)) => n,
            None => None,
        },
{
    match a {
        Some(AuthorField::Text(t)) => Some(t),
        Some(AuthorField::Record(n)) => n,
        None => None,
    }
}

/// Version shown when a plugin gives none.
pub open spec fn no_version() -> Seq<char> {
    "\u{2014}"@
}

/// The id of plugin `name` of marketplace `mp`.
pub open spec fn plugin_id_of(name: Seq<char>, mp: Seq<char>) -> Seq<char> {
    name + "@"@ + mp
}

/// Whether `id` is among the installed ids.
pub open spec fn is_installed(installed: Seq<String>, id: Seq<char>) -> bool {
    exists|i: int| 0 <= i < installed.len() && (#[trigger] installed[i])@ == id
}

/// Whether a manifest entry is offered: it has a name and is not installed.
pub open spec fn offered(p: ManifestPlugin, mp: Seq<char>, installed: Seq<String>) -> bool {
    p.name@.len() > 0 && !is_installed(installed, plugin_id_of(p.name@, mp))
}

/// The discover item of an offered entry.
pub open spec fn item_matches_entry(item: DiscoverItem, p: ManifestPlugin, mp: Seq<char>) -> bool {
    &&& item.name@ == p.name@
    &&& item.version@ == (match p.version { Some(v) => if v@.len() > 0 { v@ } else { no_version() }, None => no_version() })
    &&& item.marketplace@ == mp
    &&& item.description@ == (match p.description { Some(d) => d@, None => Seq::empty() })
    &&& match (item.author, p.author) {
        (Some(a), Some(b)) => a@ == b@,
        (None, None) => true,
        _ => false,
    }
}

/// The entries among the first `n` that are offered, in order.
pub open spec fn offered_entries(entries: Seq<ManifestPlugin>, mp: Seq<char>, installed: Seq<String>, n: int) -> Seq<ManifestPlugin>
    decreases n,
{
    if n <= 0 {
        Seq::empty()
    } else {
        let prev = offered_entries(entries, mp, installed, n - 1);
        if offered(entries[n - 1], mp, installed) { prev.push(entries[n - 1]) } else { prev }
    }
}

/// The id of plugin `name` of marketplace `mp`: `name@mp`.
pub fn plugin_id(name: &str, mp: &str) -> (r: String)
    ensures
        r@ == plugin_id_of(name@, mp@),
{
    let mut r = name.to_string();
    append_str(&mut r, "@");
    append_str(&mut r, mp);
    r
}

fn contains_id(installed: &Vec<String>, id: &str) -> (r: bool)
    ensures
        r == is_installed(installed@, id@),
{
    let mut i: usize = 0;
    while i < installed.len()
        invariant
            i <= installed@.len(),
            forall|k: int| 0 <= k < i ==> (#[trigger] installed@[k])@ != id@,
        decreases installed@.len() - i,
    {
        if str_eq(installed[i].as_str(), id) {
            return true;
        }
        i = i + 1;
    }
    false
}

/// The discover list of one marketplace: its manifest's entries that have a
/// name and are not installed, in order, with a dash for a missing or empty
/// version and an empty description when there is none.
pub fn discover_items(mp: &str, entries: &Vec<ManifestPlugin>, installed: &Vec<String>) -> (r: Vec<DiscoverItem>)
    ensures
        r@.len() == offered_entries(entries@, mp@, installed@, entries@.len() as int).len(),
        forall|i: int| 0 <= i < r@.len() ==>
            item_matches_entry(#[trigger] r@[i], offered_entries(entries@, mp@, installed@, entries@.len() as int)[i], mp@),
{
    let mut out: Vec<DiscoverItem> = Vec::new();
    let mut i: usize = 0;
    while i < entries.len()
        invariant
            i <= entries@.len(),
            out@.len() == offered_entries(entries@, mp@, installed@, i as int).len(),
            forall|k: int| 0 <= k < out@.len() ==>
                item_matches_entry(#[trigger] out@[k], offered_entries(entries@, mp@, installed@, i as int)[k], mp@),
        decreases entries@.len() - i,
    {
        let p = &entries[i];
        if !p.name.as_str().is_empty() {
            let id = plugin_id(p.name.as_str(), mp);
            if !contains_id(installed, id.as_str()) {
                let version = match &p.version {
                    Some(v) => if v.as_str().is_empty() { "\u{2014}".to_string() } else { clone_string(v) },
                    None => "\u{2014}".to_string(),
                };
                let description = match &p.description {
                    Some(d) => clone_string(d),
                    None => String::new(),
                };
                let author = match &p.author {
                    Some(a) => Some(clone_string(a)),
                    None => None,
                };
                out.push(DiscoverItem {
                    name: clone_string(&p.name),
                    version,
                    marketplace: mp.to_string(),
                    description,
                    author,
                });
            }
        }
        i = i + 1;
    }
    out
}

/// A known marketplace as the discover list reads it: its name and the
/// plugin entries of its cached manifest (none when it has no readable one).
#[derive(Debug)]
pub struct MarketplaceManifest {
    pub name: String,
    pub plugins: Option<Vec<ManifestPlugin>>,
}

/// The offered entries of the first `n` marketplaces, each with its
/// marketplace's name, in marketplace order and then manifest order.
pub open spec fn offered_all(ms: Seq<MarketplaceManifest>, installed: Seq<String>, n: int) -> Seq<(ManifestPlugin, Seq<char>)>
    decreases n,
{
    if n <= 0 {
        Seq::empty()
    } else {
        let m = ms[n - 1];
        offered_all(ms, installed, n - 1) + match m.plugins {
            Some(ps) => offered_entries(ps@, m.name@, installed, ps@.len() as int).map_values(|p: ManifestPlugin| (p, m.name@)),
            None => Seq::empty(),
        }
    }
}

/// The discover list over all known marketplaces: each marketplace's
/// offered plugins (see `discover_items`), marketplaces in order.
pub fn discover_from_all(ms: &Vec<MarketplaceManifest>, installed: &Vec<String>) -> (r: Vec<DiscoverItem>)
    ensures
        r@.len() == offered_all(ms@, installed@, ms@.len() as int).len(),
        forall|i: int| 0 <= i < r@.len() ==> ({
            let e = offered_all(ms@, installed@, ms@.len() as int)[i];
            item_matches_entry(#[trigger] r@[i], e.0, e.1)
        }),
{
    let mut out: Vec<DiscoverItem> = Vec::new();
    let mut k: usize = 0;
    while k < ms.len()
        invariant
            k <= ms@.len(),
            out@.len() == offered_all(ms@, installed@, k as int).len(),
            forall|i: int| 0 <= i < out@.len() ==> ({
                let e = offered_all(ms@, installed@, k as int)[i];
                item_matches_entry(#[trigger] out@[i], e.0, e.1)
            }),
        decreases ms@.len() - k,
    {
        let m = &ms[k];
        match &m.plugins {
            Some(ps) => {
                let mut items = discover_items(m.name.as_str(), ps, installed);
                let ghost before = out@;
                let ghost prev = offered_all(ms@, installed@, k as int);
                let ghost added = offered_entries(ps@, m.name@, installed@, ps@.len() as int);
                out.append(&mut items);
                proof {
                    let all = offered_all(ms@, installed@, k + 1);
                    assert(all == prev + added.map_values(|p: ManifestPlugin| (p, m.name@)));
                    assert forall|i: int| 0 <= i < out@.len() implies ({
                        let e = all[i];
                        item_matches_entry(#[trigger] out@[i], e.0, e.1)
                    }) by {
                        if i < before.len() {
                            assert(out@[i] == before[i]);
                        } else {
                            assert(out@[i] == out@[i]);
                        }
                    }
                }
            },
            None => {
                proof {
                    assert(offered_all(ms@, installed@, k + 1) =~= offered_all(ms@, installed@, k as int));
                }
            },
        }
        k = k + 1;
    }
    out
}

/// Whether the official marketplace (GitHub repository `official_repo`)
/// must be added before listing: no known marketplace is that repository.
pub fn needs_official(known: &Vec<(SourceKind, String)>, official_repo: &str) -> (r: bool)
    ensures
        r == !(exists|i: int| 0 <= i < known@.len() && (#[trigger] known@[i]).0 == SourceKind::GitHub
            && known@[i].1@ == official_repo@),
{
    let mut i: usize = 0;
    while i < known.len()
        invariant
            i <= known@.len(),
            forall|j: int| 0 <= j < i ==> !((#[trigger] known@[j]).0 == SourceKind::GitHub && known@[j].1@ == official_repo@),
        decreases known@.len() - i,
    {
        if known[i].0 == SourceKind::GitHub && str_eq(known[i].1.as_str(), official_repo) {
            return false;
        }
        i = i + 1;
    }
    true
}

/// The marketplaces the discover list scans, by name: the known ones in
/// order (`names[i]` is the name of `known[i]`), then the official one
/// (repository `official_repo`, named `official_name`) when none of the known
/// ones is that repository.
pub fn marketplaces_to_scan(known: &Vec<(SourceKind, String)>, names: &Vec<String>, official_repo: &str,
    official_name: &str) -> (r: Vec<String>)
    requires
        names@.len() == known@.len(),
    ensures
        ({
            let add = !(exists|i: int| 0 <= i < known@.len() && (#[trigger] known@[i]).0 == SourceKind::GitHub
                && known@[i].1@ == official_repo@);
            &&& r@.len() == names@.len() + (if add { 1int } else { 0int })
            &&& forall|i: int| 0 <= i < names@.len() ==> (#[trigger] r@[i])@ == names@[i]@
            &&& add ==> r@[names@.len() as int]@ == official_name@
        }),
{
    let mut out: Vec<String> = Vec::new();
    let mut i: usize = 0;
    while i < names.len()
        invariant
            i <= names@.len(),
            out@.len() == i,
            forall|k: int| 0 <= k < i ==> (#[trigger] out@[k])@ == names@[k]@,
        decreases names@.len() - i,
    {
        out.push(names[i].clone());
        i = i + 1;
    }
    if needs_official(known, official_repo) {
        out.push(official_name.to_string());
    }
    out
}

} // verus!
