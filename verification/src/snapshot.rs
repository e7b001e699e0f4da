//! Periodic service snapshot: when the slow scans are due, what they keep,
//! and how the derived lists are written to the shared stores.
use vstd::prelude::*;
use vstd::std_specs::cmp::PartialEqSpec;
use crate::config::PeriConfig;
use crate::text::str_eq;

verus! {

/// A shared store of the UI: writing it notifies its readers.
#[derive(Debug)]
pub struct Handle<T> {
    pub value: T,
}

/// Writes `next` only when it differs from the stored value, so that readers
/// are woken only by a real change. Returns whether it wrote.
pub fn write_if_changed<T: PartialEq>(state: &mut Handle<T>, next: T) -> (written: bool)
    ensures
        written ==> final(state).value == next,
        !written ==> final(state).value == old(state).value,
        <T as PartialEqSpec>::obeys_eq_spec() ==> written == !old(state).value.eq_spec(&next),
{
    let same = state.value == next;
    if !same {
        state.value = next;
        true
    } else {
        false
    }
}

/// Where `path` lies below `root`, as `std::path::Path::strip_prefix` finds
/// it (whole components only), rendered as text.
pub uninterp spec fn path_strip_prefix(path: Seq<char>, root: Seq<char>) -> Option<Seq<char>>;

/// `std::path::Path::strip_prefix` on paths given as text; the remainder is
/// turned back into text (paths built from `&str` are valid Unicode).
#[verifier::external_body]
fn strip_path_prefix(path: &str, root: &str) -> (r: Option<String>)
    ensures
        match r {
            Some(s) => path_strip_prefix(path@, root@) == Some(s@),
            None => path_strip_prefix(path@, root@) is None,
        },
{
    match std::path::Path::new(path).strip_prefix(std::path::Path::new(root)) {
        Ok(rel) => Some(rel.to_string_lossy().into_owned()),
        Err(_) => None,
    }
}

/// The text with every backslash turned into a slash.
pub open spec fn posix_separators(s: Seq<char>) -> Seq<char> {
    s.map_values(|c: char| if c == '\\' { '/' } else { c })
}

fn to_posix(s: &str) -> (r: String)
    ensures
        r@ == posix_separators(s@),
{
    let chars = crate::text::chars_of(s);
    let mut out = String::new();
    let mut i: usize = 0;
    while i < chars.len()
        invariant
            chars@ == s@,
            i <= chars@.len(),
            out@ == posix_separators(chars@.take(i as int)),
        decreases chars@.len() - i,
    {
        let c = chars[i];
        crate::text::push_char(&mut out, if c == '\\' { '/' } else { c });
        proof {
            assert(posix_separators(chars@.take(i + 1)) =~= posix_separators(chars@.take(i as int)).push(
                if c == '\\' { '/' } else { c }));
        }
        i = i + 1;
    }
    proof { assert(chars@.take(chars@.len() as int) =~= chars@); }
    out
}

/// Appends the path of `path` relative to `root`, with `/` separators;
/// nothing when `path` is not below `root` or is `root` itself.
pub fn push_rel_path(out: &mut Vec<String>, path: &str, root: &str)
    ensures
        match path_strip_prefix(path@, root@) {
            Some(rel) => if posix_separators(rel).len() > 0 {
                crate::ask_user::strings_view(final(out)@) == crate::ask_user::strings_view(old(out)@).push(posix_separators(rel))
            } else {
                final(out)@ == old(out)@
            },
            None => final(out)@ == old(out)@,
        },
{
    match strip_path_prefix(path, root) {
        Some(rel) => {
            let s = to_posix(rel.as_str());
            if !s.as_str().is_empty() {
                let ghost before = crate::ask_user::strings_view(out@);
                let ghost sv = s@;
                out.push(s);
                assert(crate::ask_user::strings_view(out@) =~= before.push(sv));
            }
        },
        None => {},
    }
}

/// Most files the working-directory scan lists.
pub const MAX_SCAN_FILES: usize = 500;

/// Directory and file names the working-directory scan skips at any level.
pub open spec fn ignored_names() -> Seq<Seq<char>> {
    seq![
        ".git"@, ".hg"@, ".svn"@, "node_modules"@, "target"@, "dist"@, "build"@, "__pycache__"@,
        ".next"@, ".nuxt"@, ".venv"@, "venv"@, ".cache"@, ".idea"@, ".vscode"@, ".DS_Store"@,
        ".gradle"@, ".maven"@, ".cargo"@, ".rust-analyzer"@, ".ruff_cache"@, ".pytest_cache"@,
        "coverage"@, "out"@, "bin"@, "obj"@, ".terraform"@, ".serverless"@, ".aws"@, ".kube"@
    ]
}

fn ignored_name(i: usize) -> (r: &'static str)
    requires
        i < 30,
    ensures
        r@ == ignored_names()[i as int],
{
    if i == 0 { ".git" } else if i == 1 { ".hg" } else if i == 2 { ".svn" } else if i == 3 { "node_modules" }
    else if i == 4 { "target" } else if i == 5 { "dist" } else if i == 6 { "build" } else if i == 7 { "__pycache__" }
    else if i == 8 { ".next" } else if i == 9 { ".nuxt" } else if i == 10 { ".venv" } else if i == 11 { "venv" }
    else if i == 12 { ".cache" } else if i == 13 { ".idea" } else if i == 14 { ".vscode" } else if i == 15 { ".DS_Store" }
    else if i == 16 { ".gradle" } else if i == 17 { ".maven" } else if i == 18 { ".cargo" } else if i == 19 { ".rust-analyzer" }
    else if i == 20 { ".ruff_cache" } else if i == 21 { ".pytest_cache" } else if i == 22 { "coverage" } else if i == 23 { "out" }
    else if i == 24 { "bin" } else if i == 25 { "obj" } else if i == 26 { ".terraform" } else if i == 27 { ".serverless" }
    else if i == 28 { ".aws" } else { ".kube" }
}

/// Whether the working-directory scan skips an entry with this name.
pub fn is_ignored_name(name: &str) -> (r: bool)
    ensures
        r == ignored_names().contains(name@),
{
    let mut i: usize = 0;
    while i < 30
        invariant
            i <= 30,
            ignored_names().len() == 30,
            forall|j: int| 0 <= j < i ==> ignored_names()[j] != name@,
        decreases 30 - i,
    {
        if str_eq(ignored_name(i), name) {
            assert(ignored_names()[i as int] == name@);
            return true;
        }
        i = i + 1;
    }
    false
}

/// Whether the scan still takes entries (it stops at `MAX_SCAN_FILES`).
pub fn scan_has_room(found: usize) -> (r: bool)
    ensures
        r == (found < MAX_SCAN_FILES),
{
    found < MAX_SCAN_FILES
}

/// A saved conversation as the store lists it.
#[derive(Debug, Clone)]
pub struct ThreadMeta {
    pub id: String,
    pub title: Option<String>,
    pub cwd: String,
    pub message_count: usize,
    pub hidden: bool,
    /// Last update, in seconds since the Unix epoch.
    pub updated_at: i64,
}

/// A conversation as the history panel shows it.
#[derive(Debug, Clone)]
pub struct ThreadSummary {
    pub id: String,
    pub title: Option<String>,
    pub cwd: String,
    pub message_count: usize,
    pub updated_at: Option<i64>,
}

/// The history panel lists conversations that are not hidden sub-agent
/// threads, have messages, and were held in the current directory.
pub open spec fn thread_listed(m: ThreadMeta, cwd: Seq<char>) -> bool {
    !m.hidden && m.message_count > 0 && m.cwd@ == cwd
}

/// The listed conversations, in store order.
pub open spec fn listed_threads(ms: Seq<ThreadMeta>, cwd: Seq<char>) -> Seq<ThreadMeta> {
    ms.filter(|m: ThreadMeta| thread_listed(m, cwd))
}

pub open spec fn summary_of(s: ThreadSummary, m: ThreadMeta) -> bool {
    &&& s.id@ == m.id@
    &&& crate::profiles::nonempty(match s.title { Some(t) => Some(t@), None => None }) == crate::profiles::nonempty(match m.title { Some(t) => Some(t@), None => None })
    &&& (s.title is Some <==> m.title is Some)
    &&& s.cwd@ == m.cwd@
    &&& s.message_count == m.message_count
    &&& s.updated_at == Some(m.updated_at)
}

fn summarize_thread(m: &ThreadMeta) -> (r: ThreadSummary)
    ensures
        summary_of(r, *m),
{
    ThreadSummary {
        id: m.id.clone(),
        title: match &m.title { Some(t) => Some(t.clone()), None => None },
        cwd: m.cwd.clone(),
        message_count: m.message_count,
        updated_at: Some(m.updated_at),
    }
}

/// The conversations the history panel lists, in store order.
pub fn filter_threads(metas: &Vec<ThreadMeta>, cwd: &str) -> (r: Vec<ThreadSummary>)
    ensures
        r@.len() == listed_threads(metas@, cwd@).len(),
        forall|i: int| 0 <= i < r@.len() ==> summary_of(#[trigger] r@[i], listed_threads(metas@, cwd@)[i]),
{
    let mut out: Vec<ThreadSummary> = Vec::new();
    let mut i: usize = 0;
    proof { assert(metas@.take(0).filter(|m: ThreadMeta| thread_listed(m, cwd@)) =~= Seq::<ThreadMeta>::empty()); }
    while i < metas.len()
        invariant
            i <= metas@.len(),
            out@.len() == listed_threads(metas@.take(i as int), cwd@).len(),
            forall|k: int| 0 <= k < out@.len() ==> summary_of(#[trigger] out@[k], listed_threads(metas@.take(i as int), cwd@)[k]),
        decreases metas@.len() - i,
    {
        let m = &metas[i];
        proof {
            assert(metas@.take(i + 1).drop_last() =~= metas@.take(i as int));
            reveal(Seq::filter);
        }
        if !m.hidden && m.message_count > 0 && str_eq(m.cwd.as_str(), cwd) {
            out.push(summarize_thread(m));
        }
        i = i + 1;
    }
    proof { assert(metas@.take(metas@.len() as int) =~= metas@); }
    out
}

/// A file of the memory directory, as the scan found it.
#[derive(Debug, Clone)]
pub struct MemoryCandidate {
    pub is_file: bool,
    pub extension: Option<String>,
    /// Path relative to the memory directory.
    pub rel: String,
    pub size_bytes: u64,
    /// Modification time, in seconds since the Unix epoch.
    pub modified: Option<(i64, u32)>,
}

/// A memory file as the memory panel lists it.
#[derive(Debug, Clone)]
pub struct MemoryEntry {
    pub path: String,
    pub size_bytes: u64,
    pub modified: Option<(i64, u32)>,
}

/// Most memory files listed.
pub const MAX_MEMORY_FILES: usize = 200;

/// The memory panel lists regular `.md` files with a relative path.
pub open spec fn memory_listed(c: MemoryCandidate) -> bool {
    c.is_file && (match c.extension { Some(e) => e@ == "md"@, None => false }) && c.rel@.len() > 0
}

/// The memory files listed: the first `MAX_MEMORY_FILES` that qualify, in scan order.
pub open spec fn listed_memory(cs: Seq<MemoryCandidate>) -> Seq<MemoryCandidate> {
    let all = cs.filter(|c: MemoryCandidate| memory_listed(c));
    if all.len() > MAX_MEMORY_FILES { all.take(MAX_MEMORY_FILES as int) } else { all }
}

/// Picks the memory files to list.
pub fn collect_memory_entries(cands: &Vec<MemoryCandidate>) -> (r: Vec<MemoryEntry>)
    ensures
        r@.len() == listed_memory(cands@).len(),
        forall|i: int| 0 <= i < r@.len() ==> {
            let c = #[trigger] listed_memory(cands@)[i];
            r@[i].path@ == c.rel@ && r@[i].size_bytes == c.size_bytes && r@[i].modified == c.modified
        },
{
    let mut out: Vec<MemoryEntry> = Vec::new();
    let mut i: usize = 0;
    let ghost f = |c: MemoryCandidate| memory_listed(c);
    proof { assert(cands@.take(0).filter(f) =~= Seq::<MemoryCandidate>::empty()); }
    while i < cands.len() && out.len() < MAX_MEMORY_FILES
        invariant
            f == (|c: MemoryCandidate| memory_listed(c)),
            i <= cands@.len(),
            out@.len() == cands@.take(i as int).filter(f).len(),
            out@.len() <= MAX_MEMORY_FILES,
            forall|k: int| 0 <= k < out@.len() ==> {
                let c = #[trigger] cands@.take(i as int).filter(f)[k];
                out@[k].path@ == c.rel@ && out@[k].size_bytes == c.size_bytes && out@[k].modified == c.modified
            },
        decreases cands@.len() - i,
    {
        let c = &cands[i];
        proof {
            assert(cands@.take(i + 1).drop_last() =~= cands@.take(i as int));
            reveal(Seq::filter);
        }
        let md = match &c.extension { Some(e) => str_eq(e.as_str(), "md"), None => false };
        if c.is_file && md && !c.rel.as_str().is_empty() {
            out.push(MemoryEntry { path: c.rel.clone(), size_bytes: c.size_bytes, modified: c.modified });
        }
        i = i + 1;
    }
    proof {
        let all = cands@.filter(f);
        lemma_filter_prefix(cands@, f, i as int);
        if i < cands@.len() {
            assert(out@.len() == MAX_MEMORY_FILES);
            assert(all.len() >= MAX_MEMORY_FILES);
        } else {
            assert(cands@.take(cands@.len() as int) =~= cands@);
        }
        assert(listed_memory(cands@) == (if all.len() > MAX_MEMORY_FILES { all.take(MAX_MEMORY_FILES as int) } else { all }));
        assert forall|k: int| 0 <= k < out@.len() implies
            #[trigger] listed_memory(cands@)[k] == cands@.take(i as int).filter(f)[k] by {
        }
    }
    out
}

proof fn lemma_filter_prefix(s: Seq<MemoryCandidate>, f: spec_fn(MemoryCandidate) -> bool, i: int)
    requires
        0 <= i <= s.len(),
    ensures
        s.take(i).filter(f).len() <= s.filter(f).len(),
        forall|k: int| 0 <= k < s.take(i).filter(f).len() ==> #[trigger] s.take(i).filter(f)[k] == s.filter(f)[k],
    decreases s.len() - i,
{
    if i < s.len() {
        lemma_filter_prefix(s, f, i + 1);
        let a = s.take(i).filter(f);
        let b = s.take(i + 1).filter(f);
        assert(s.take(i + 1).drop_last() =~= s.take(i));
        reveal(Seq::filter);
        assert(b == (if f(s.take(i + 1).last()) { a.push(s.take(i + 1).last()) } else { a }));
        assert forall|k: int| 0 <= k < a.len() implies #[trigger] a[k] == s.filter(f)[k] by {
            assert(a[k] == b[k]);
        }
    } else {
        assert(s.take(i) =~= s);
    }
}


/// Interval between slow scans (threads, files, memory), in milliseconds.
pub const SLOW_SCAN_INTERVAL_MS: u64 = 30_000;
/// Interval between title refreshes of the same session, in milliseconds.
pub const TITLE_REFRESH_MS: u64 = 10_000;

/// `t + d`, capped at `u64::MAX`.
pub open spec fn later(t: u64, d: u64) -> u64 {
    if t + d > u64::MAX { u64::MAX } else { (t + d) as u64 }
}

/// State of the slow scans between snapshot ticks. Times are milliseconds
/// on a monotonic clock.
#[derive(Debug)]
pub struct SlowSnapshotRefresh {
    pub next_file_scan: u64,
    pub next_thread_scan: u64,
    pub next_memory_scan: u64,
    pub files: Vec<String>,
    pub threads: Vec<ThreadSummary>,
    pub memory_entries: Vec<MemoryEntry>,
    /// Session whose title is cached.
    pub current_title_session_id: String,
    pub current_title: String,
    pub next_title_refresh: u64,
}

impl SlowSnapshotRefresh {
    /// A state whose scans are all due at `now`, with nothing cached.
    pub fn starting_at(now: u64) -> (r: SlowSnapshotRefresh)
        ensures
            r.next_file_scan == now && r.next_thread_scan == now && r.next_memory_scan == now
                && r.next_title_refresh == now,
            r.files@.len() == 0 && r.threads@.len() == 0 && r.memory_entries@.len() == 0,
            r.current_title_session_id@.len() == 0 && r.current_title@.len() == 0,
    {
        SlowSnapshotRefresh {
            next_file_scan: now,
            next_thread_scan: now,
            next_memory_scan: now,
            files: Vec::new(),
            threads: Vec::new(),
            memory_entries: Vec::new(),
            current_title_session_id: String::new(),
            current_title: String::new(),
            next_title_refresh: now,
        }
    }
}

/// A state whose scans are due at `now`, except the memory scan, held off
/// for an hour so that a tick does not touch the user's memory directory.
pub fn isolated_refresh(now: u64) -> (r: SlowSnapshotRefresh)
    ensures
        r.next_memory_scan == later(now, 3_600_000),
        r.next_file_scan == now && r.next_thread_scan == now && r.next_title_refresh == now,
        r.files@.len() == 0 && r.threads@.len() == 0 && r.memory_entries@.len() == 0,
        r.current_title_session_id@.len() == 0 && r.current_title@.len() == 0,
{
    let mut r = SlowSnapshotRefresh::starting_at(now);
    r.next_memory_scan = now.saturating_add(3_600_000);
    r
}

/// Which slow scans a tick runs.
#[derive(Debug, Clone, Copy, PartialEq, Eq, Structural)]
pub struct ScanPlan {
    pub threads: bool,
    pub files: bool,
    pub memory: bool,
}

/// The scans due at `now`.
pub fn due_scans(slow: &SlowSnapshotRefresh, now: u64) -> (r: ScanPlan)
    ensures
        r == (ScanPlan {
            threads: now >= slow.next_thread_scan,
            files: now >= slow.next_file_scan,
            memory: now >= slow.next_memory_scan,
        }),
{
    ScanPlan {
        threads: now >= slow.next_thread_scan,
        files: now >= slow.next_file_scan,
        memory: now >= slow.next_memory_scan,
    }
}

/// Keeps the result of a thread scan and schedules the next one.
pub fn record_thread_scan(slow: &mut SlowSnapshotRefresh, now: u64, threads: Vec<ThreadSummary>)
    ensures
        final(slow).threads == threads,
        final(slow).next_thread_scan == later(now, SLOW_SCAN_INTERVAL_MS),
        *final(slow) == (SlowSnapshotRefresh { threads, next_thread_scan: final(slow).next_thread_scan, ..*old(slow) }),
{
    slow.threads = threads;
    slow.next_thread_scan = now.saturating_add(SLOW_SCAN_INTERVAL_MS);
}

/// Keeps the result of a file scan and schedules the next one.
pub fn record_file_scan(slow: &mut SlowSnapshotRefresh, now: u64, files: Vec<String>)
    ensures
        final(slow).files == files,
        final(slow).next_file_scan == later(now, SLOW_SCAN_INTERVAL_MS),
        *final(slow) == (SlowSnapshotRefresh { files, next_file_scan: final(slow).next_file_scan, ..*old(slow) }),
{
    slow.files = files;
    slow.next_file_scan = now.saturating_add(SLOW_SCAN_INTERVAL_MS);
}

/// Keeps the result of a memory scan and schedules the next one.
pub fn record_memory_scan(slow: &mut SlowSnapshotRefresh, now: u64, entries: Vec<MemoryEntry>)
    ensures
        final(slow).memory_entries == entries,
        final(slow).next_memory_scan == later(now, SLOW_SCAN_INTERVAL_MS),
        *final(slow) == (SlowSnapshotRefresh { memory_entries: entries, next_memory_scan: final(slow).next_memory_scan, ..*old(slow) }),
{
    slow.memory_entries = entries;
    slow.next_memory_scan = now.saturating_add(SLOW_SCAN_INTERVAL_MS);
}

/// The slow part of a snapshot tick, once the host has run the scans that
/// `due_scans` asked for at `now` (each argument is `Some` exactly for a due
/// scan; inside, `None` stands for a scan that failed): the threads of the
/// store are filtered to those the history lists (see `filter_threads`), a
/// failed scan leaves an empty list, and each scan that ran is scheduled
/// again. Scans that were not due keep their results and schedule, and the
/// cached title is untouched.
pub fn apply_slow_scans(slow: &mut SlowSnapshotRefresh, now: u64, cwd: &str,
    thread_scan: Option<Option<Vec<ThreadMeta>>>, file_scan: Option<Option<Vec<String>>>,
    memory_scan: Option<Option<Vec<MemoryEntry>>>)
    requires
        thread_scan is Some == (now >= old(slow).next_thread_scan),
        file_scan is Some == (now >= old(slow).next_file_scan),
        memory_scan is Some == (now >= old(slow).next_memory_scan),
    ensures
        final(slow).current_title_session_id == old(slow).current_title_session_id,
        final(slow).current_title == old(slow).current_title,
        final(slow).next_title_refresh == old(slow).next_title_refresh,
        match thread_scan {
            None => final(slow).threads == old(slow).threads && final(slow).next_thread_scan == old(slow).next_thread_scan,
            Some(found) => {
                &&& final(slow).next_thread_scan == later(now, SLOW_SCAN_INTERVAL_MS)
                &&& match found {
                    None => final(slow).threads@.len() == 0,
                    Some(ms) => final(slow).threads@.len() == listed_threads(ms@, cwd@).len()
                        && forall|i: int| 0 <= i < final(slow).threads@.len()
                            ==> summary_of(#[trigger] final(slow).threads@[i], listed_threads(ms@, cwd@)[i]),
                }
            },
        },
        match file_scan {
            None => final(slow).files == old(slow).files && final(slow).next_file_scan == old(slow).next_file_scan,
            Some(found) => final(slow).next_file_scan == later(now, SLOW_SCAN_INTERVAL_MS) && match found {
                None => final(slow).files@.len() == 0,
                Some(fs) => final(slow).files == fs,
            },
        },
        match memory_scan {
            None => final(slow).memory_entries == old(slow).memory_entries
                && final(slow).next_memory_scan == old(slow).next_memory_scan,
            Some(found) => final(slow).next_memory_scan == later(now, SLOW_SCAN_INTERVAL_MS) && match found {
                None => final(slow).memory_entries@.len() == 0,
                Some(es) => final(slow).memory_entries == es,
            },
        },
{
    match thread_scan {
        Some(found) => {
            let threads = match found {
                Some(ms) => filter_threads(&ms, cwd),
                None => Vec::new(),
            };
            record_thread_scan(slow, now, threads);
        },
        None => {},
    }
    match file_scan {
        Some(found) => {
            let files = match found {
                Some(fs) => fs,
                None => Vec::new(),
            };
            record_file_scan(slow, now, files);
        },
        None => {},
    }
    match memory_scan {
        Some(found) => {
            let entries = match found {
                Some(es) => es,
                None => Vec::new(),
            };
            record_memory_scan(slow, now, entries);
        },
        None => {},
    }
}

/// What the tick does about the session title.
#[derive(Debug, Clone, Copy, PartialEq, Eq, Structural)]
pub enum TitleAction {
    /// The cached title stays.
    Keep,
    /// The session closed: the cached title was dropped.
    Cleared,
    /// Look the session's title up, then call `title_loaded`.
    Query,
}

/// Decides about the session title: a closed session (empty id) drops the
/// cache; a new session, or the same one after `TITLE_REFRESH_MS`, is looked up.
pub fn title_step(slow: &mut SlowSnapshotRefresh, session_id: &str, now: u64) -> (r: TitleAction)
    ensures
        ({
            let changed = session_id@ != old(slow).current_title_session_id@;
            if changed && session_id@.len() == 0 {
                &&& r == TitleAction::Cleared
                &&& final(slow).current_title@.len() == 0
                &&& final(slow).current_title_session_id@.len() == 0
                &&& final(slow).next_title_refresh == later(now, TITLE_REFRESH_MS)
            } else if (changed || now >= old(slow).next_title_refresh) && session_id@.len() > 0 {
                r == TitleAction::Query && *final(slow) == *old(slow)
            } else {
                r == TitleAction::Keep && *final(slow) == *old(slow)
            }
        }),
{
    let changed = !str_eq(session_id, slow.current_title_session_id.as_str());
    if changed && session_id.is_empty() {
        slow.current_title = String::new();
        slow.current_title_session_id = String::new();
        slow.next_title_refresh = now.saturating_add(TITLE_REFRESH_MS);
        TitleAction::Cleared
    } else if (changed || now >= slow.next_title_refresh) && !session_id.is_empty() {
        TitleAction::Query
    } else {
        TitleAction::Keep
    }
}

/// Takes the answer of a title lookup: on success the title (empty when the
/// session has none) and the session id are cached; a failed lookup keeps the
/// cache. Either way the next refresh is scheduled.
pub fn title_loaded(slow: &mut SlowSnapshotRefresh, session_id: &str, result: Option<Option<String>>, now: u64)
    ensures
        match result {
            Some(t) => final(slow).current_title@ == (match t { Some(x) => x@, None => Seq::<char>::empty() })
                && final(slow).current_title_session_id@ == session_id@,
            None => final(slow).current_title == old(slow).current_title
                && final(slow).current_title_session_id == old(slow).current_title_session_id,
        },
        final(slow).next_title_refresh == later(now, TITLE_REFRESH_MS),
{
    match result {
        Some(t) => {
            slow.current_title = match t { Some(x) => x, None => String::new() };
            slow.current_title_session_id = session_id.to_string();
        },
        None => {},
    }
    slow.next_title_refresh = now.saturating_add(TITLE_REFRESH_MS);
}

/// Which conversations the history panel lists.
#[derive(Debug, Clone, Copy, PartialEq, Eq, Structural)]
pub enum ThreadBrowserScope {
    Project,
    All,
}

/// The shared stores that the snapshot and the history panel write.
#[derive(Debug)]
pub struct SnapshotAtoms {
    pub active_execution_cwd: Option<String>,
    pub active_session_id: String,
    pub thread_browser_scope: ThreadBrowserScope,
    pub thread_list_page_count: usize,
    pub thread_list_error: Option<String>,
    pub thread_list: Vec<ThreadSummary>,
}

/// Puts the snapshot stores back to their starting values: no execution
/// directory or session, project scope, one page, no error, no threads.
pub fn reset_snapshot_atoms(atoms: &mut SnapshotAtoms)
    ensures
        final(atoms).active_execution_cwd is None,
        final(atoms).active_session_id@.len() == 0,
        final(atoms).thread_browser_scope == ThreadBrowserScope::Project,
        final(atoms).thread_list_page_count == 1,
        final(atoms).thread_list_error is None,
        final(atoms).thread_list@.len() == 0,
{
    atoms.active_execution_cwd = None;
    atoms.active_session_id = String::new();
    atoms.thread_browser_scope = ThreadBrowserScope::Project;
    atoms.thread_list_page_count = 1;
    atoms.thread_list_error = None;
    atoms.thread_list.clear();
}

/// A scheduled prompt.
#[derive(Debug, Clone)]
pub struct CronTask {
    pub id: String,
    pub expression: String,
    pub prompt: String,
    pub enabled: bool,
    /// Next firing time, in seconds since the Unix epoch.
    pub next_fire: Option<i64>,
}

/// Number of enabled tasks among the first `n`.
pub open spec fn enabled_count(ts: Seq<CronTask>, n: int) -> int
    decreases n,
{
    if n <= 0 { 0 } else { enabled_count(ts, n - 1) + if ts[n - 1].enabled { 1int } else { 0int } }
}

proof fn lemma_enabled_count_le(ts: Seq<CronTask>, n: int)
    requires
        0 <= n,
    ensures
        0 <= enabled_count(ts, n) <= n,
    decreases n,
{
    if n > 0 {
        lemma_enabled_count_le(ts, n - 1);
    }
}

/// Total and enabled task counts for the status line.
pub fn cron_counts(tasks: &Vec<CronTask>) -> (r: (usize, usize))
    ensures
        r.0 == tasks@.len(),
        r.1 as int == enabled_count(tasks@, tasks@.len() as int),
{
    let mut enabled: usize = 0;
    let mut i: usize = 0;
    while i < tasks.len()
        invariant
            i <= tasks@.len(),
            enabled as int == enabled_count(tasks@, i as int),
        decreases tasks@.len() - i,
    {
        proof { lemma_enabled_count_le(tasks@, i as int); }
        if tasks[i].enabled {
            enabled = enabled + 1;
        }
        i = i + 1;
    }
    (tasks.len(), enabled)
}

/// Start-up phase of the tool servers.
#[derive(Debug, Clone, Copy, PartialEq, Eq, Structural)]
pub enum McpInitPhase {
    Pending,
    Initializing,
    Ready,
    Failed,
}

/// Connection state of one tool server.
#[derive(Debug, Clone, Copy, PartialEq, Eq, Structural)]
pub enum ClientStatus {
    Connected,
    Connecting,
    Disconnected,
    Failed,
}

/// Tool-server summary for the status line.
#[derive(Debug, Clone, Copy, PartialEq, Eq, Structural)]
pub struct McpStatusSnapshot {
    pub init_phase: McpInitPhase,
    pub total: usize,
    pub connected: usize,
}

/// Number of connected servers among the first `n`.
pub open spec fn connected_count(ss: Seq<ClientStatus>, n: int) -> int
    decreases n,
{
    if n <= 0 { 0 } else { connected_count(ss, n - 1) + if ss[n - 1] == ClientStatus::Connected { 1int } else { 0int } }
}

proof fn lemma_connected_count_le(ss: Seq<ClientStatus>, n: int)
    requires
        0 <= n,
    ensures
        0 <= connected_count(ss, n) <= n,
    decreases n,
{
    if n > 0 {
        lemma_connected_count_le(ss, n - 1);
    }
}

/// The tool-server summary: the start-up phase (pending when unknown) and,
/// when there is a pool, how many servers it has and how many are connected.
pub fn derive_mcp_status(init: Option<McpInitPhase>, servers: Option<&Vec<ClientStatus>>) -> (r: McpStatusSnapshot)
    ensures
        r.init_phase == match init { Some(p) => p, None => McpInitPhase::Pending },
        match servers {
            Some(v) => r.total == v@.len() && r.connected as int == connected_count(v@, v@.len() as int),
            None => r.total == 0 && r.connected == 0,
        },
{
    let init_phase = match init { Some(p) => p, None => McpInitPhase::Pending };
    match servers {
        Some(v) => {
            let mut connected: usize = 0;
            let mut i: usize = 0;
            while i < v.len()
                invariant
                    i <= v@.len(),
                    connected as int == connected_count(v@, i as int),
                decreases v@.len() - i,
            {
                proof { lemma_connected_count_le(v@, i as int); }
                if v[i] == ClientStatus::Connected {
                    connected = connected + 1;
                }
                i = i + 1;
            }
            McpStatusSnapshot { init_phase, total: v.len(), connected }
        },
        None => McpStatusSnapshot { init_phase, total: 0, connected: 0 },
    }
}

/// A provider as the provider list shows it.
#[derive(Debug, Clone)]
pub struct ProviderSummary {
    pub id: String,
    pub provider_type: String,
    pub is_active: bool,
    pub has_api_key: bool,
    pub base_url: Option<String>,
}

/// The uppercase form of a text, as `str::to_uppercase` gives it.
pub uninterp spec fn uppercase(s: Seq<char>) -> Seq<char>;

/// `str::to_uppercase` from std.
#[verifier::external_body]
fn to_uppercase(s: &str) -> (r: String)
    ensures
        r@ == uppercase(s@),
{
    s.to_uppercase()
}

/// Name of the environment variable that may hold a provider type's API key.
pub fn provider_env_key(provider_type: &str) -> (r: String)
    ensures
        r@ == uppercase(provider_type@) + "_API_KEY"@,
{
    let mut r = to_uppercase(provider_type);
    crate::text::append_str(&mut r, "_API_KEY");
    r
}

/// The provider list: each provider, marked active when the active profile
/// uses it, and as having a key when it holds one or its environment variable
/// is set (`env_has_key[i]` for provider `i`).
pub fn derive_providers(peri_config: &PeriConfig, env_has_key: &Vec<bool>) -> (r: Vec<ProviderSummary>)
    requires
        env_has_key@.len() == peri_config.config.providers@.len(),
    ensures
        r@.len() == peri_config.config.providers@.len(),
        crate::login::list_reflects(peri_config.config, r@),
        forall|i: int| 0 <= i < r@.len() ==> {
            let p = #[trigger] peri_config.config.providers@[i];
            let active = match crate::config::profile_for(peri_config.config.profiles, peri_config.config.active_alias@) {
                Some(pf) => pf.provider@,
                None => Seq::<char>::empty(),
            };
            &&& r@[i].id@ == p.id@
            &&& r@[i].provider_type@ == p.provider_type@
            &&& r@[i].is_active == (p.id@ == active)
            &&& r@[i].has_api_key == (p.api_key@.len() > 0 || env_has_key@[i])
            &&& (match r@[i].base_url { Some(u) => p.base_url@.len() > 0 && u@ == p.base_url@, None => p.base_url@.len() == 0 })
        },
{
    let cfg = &peri_config.config;
    let active: String = match cfg.profiles.get(cfg.active_alias.as_str()) {
        Some(pf) => pf.provider.clone(),
        None => String::new(),
    };
    let mut out: Vec<ProviderSummary> = Vec::new();
    let mut i: usize = 0;
    while i < cfg.providers.len()
        invariant
            cfg == &peri_config.config,
            env_has_key@.len() == cfg.providers@.len(),
            active@ == match crate::config::profile_for(cfg.profiles, cfg.active_alias@) {
                Some(pf) => pf.provider@,
                None => Seq::<char>::empty(),
            },
            i <= cfg.providers@.len(),
            out@.len() == i,
            forall|k: int| 0 <= k < i ==> {
                let p = #[trigger] cfg.providers@[k];
                &&& out@[k].id@ == p.id@
                &&& out@[k].provider_type@ == p.provider_type@
                &&& out@[k].is_active == (p.id@ == active@)
                &&& out@[k].has_api_key == (p.api_key@.len() > 0 || env_has_key@[k])
                &&& (match out@[k].base_url { Some(u) => p.base_url@.len() > 0 && u@ == p.base_url@, None => p.base_url@.len() == 0 })
            },
        decreases cfg.providers@.len() - i,
    {
        let p = &cfg.providers[i];
        let base_url = if p.base_url.as_str().is_empty() { None } else { Some(p.base_url.clone()) };
        out.push(ProviderSummary {
            id: p.id.clone(),
            provider_type: p.provider_type.clone(),
            is_active: str_eq(p.id.as_str(), active.as_str()),
            has_api_key: !p.api_key.as_str().is_empty() || env_has_key[i],
            base_url,
        });
        i = i + 1;
    }
    out
}

/// What the shallow file scan does with a directory entry.
#[derive(Debug, Clone, Copy, PartialEq, Eq, Structural)]
pub enum ScanStep {
    /// Enough files were found: stop scanning.
    Stop,
    /// Leave the entry out.
    Skip,
    /// A top-level directory: scan it after the top level.
    QueueDir,
    /// Record the file's relative path.
    Record,
}

/// The scan's decision for an entry: stop once the file limit is reached;
/// skip entries whose name is not valid Unicode or is an ignored name; at
/// the top level queue directories and record everything else; one level
/// down record files only.
pub fn scan_entry_step(found: usize, name: Option<&str>, is_dir: bool, is_file: bool, top_level: bool) -> (r: ScanStep)
    ensures
        r == if found >= MAX_SCAN_FILES {
            ScanStep::Stop
        } else if (match name { Some(n) => ignored_names().contains(n@), None => true }) {
            ScanStep::Skip
        } else if top_level {
            if is_dir { ScanStep::QueueDir } else { ScanStep::Record }
        } else if is_file {
            ScanStep::Record
        } else {
            ScanStep::Skip
        },
{
    if !scan_has_room(found) {
        return ScanStep::Stop;
    }
    let skip = match name {
        Some(n) => is_ignored_name(n),
        None => true,
    };
    if skip {
        ScanStep::Skip
    } else if top_level {
        if is_dir { ScanStep::QueueDir } else { ScanStep::Record }
    } else if is_file {
        ScanStep::Record
    } else {
        ScanStep::Skip
    }
}

} // verus!
