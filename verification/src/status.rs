//! What the status bar shows: the model segment, the permission mode, the
//! working directory's name, resource levels and the hint line.
use vstd::prelude::*;
use crate::text::{append_str, chars_of, str_eq, u64_to_decimal};

verus! {

/// Whether `s` ends with `suf`.
pub open spec fn ends_with(s: Seq<char>, suf: Seq<char>) -> bool {
    s.len() >= suf.len() && s.skip(s.len() - suf.len()) == suf
}

fn ends_with_exec(s: &Vec<char>, suf: &Vec<char>) -> (r: bool)
    ensures
        r == ends_with(s@, suf@),
{
    if s.len() < suf.len() {
        return false;
    }
    let off = s.len() - suf.len();
    let mut i: usize = 0;
    while i < suf.len()
        invariant
            off + suf@.len() == s@.len(),
            s@.len() <= usize::MAX,
            i <= suf@.len(),
            forall|k: int| 0 <= k < i ==> s@[off + k] == suf@[k],
        decreases suf@.len() - i,
    {
        if s[off + i] != suf[i] {
            assert(s@.skip(off as int)[i as int] != suf@[i as int]);
            return false;
        }
        i = i + 1;
    }
    assert(s@.skip(off as int) =~= suf@);
    true
}

/// The model segment's parts: the alias, the model when it is set and not
/// the alias itself, and the effort when it is set and the model name does
/// not already end with it (after a space).
pub open spec fn segment_parts(alias: Seq<char>, model: Seq<char>, effort: Seq<char>) -> Seq<Seq<char>> {
    let a = if alias.len() > 0 { seq![alias] } else { Seq::empty() };
    let m = if model.len() > 0 && model != alias { a.push(model) } else { a };
    if effort.len() > 0 && !ends_with(model, seq![' '] + effort) { m.push(effort) } else { m }
}

/// The parts of the status bar's model segment.
pub fn model_segment_parts(alias: &str, model: &str, effort: &str) -> (r: Vec<String>)
    ensures
        crate::ask_user::strings_view(r@) == segment_parts(alias@, model@, effort@),
{
    let mut parts: Vec<String> = Vec::new();
    let ghost a = if alias@.len() > 0 { seq![alias@] } else { Seq::<Seq<char>>::empty() };
    if !alias.is_empty() {
        parts.push(alias.to_string());
    }
    assert(crate::ask_user::strings_view(parts@) =~= a);
    let ghost m = if model@.len() > 0 && model@ != alias@ { a.push(model@) } else { a };
    if !model.is_empty() && !str_eq(model, alias) {
        parts.push(model.to_string());
    }
    assert(crate::ask_user::strings_view(parts@) =~= m);
    if !effort.is_empty() {
        let mchars = chars_of(model);
        let mut suffix = String::new();
        crate::text::push_char(&mut suffix, ' ');
        append_str(&mut suffix, effort);
        let schars = chars_of(suffix.as_str());
        assert(Seq::<char>::empty().push(' ') + effort@ =~= seq![' '] + effort@);
        if !ends_with_exec(&mchars, &schars) {
            parts.push(effort.to_string());
        }
    }
    assert(crate::ask_user::strings_view(parts@) =~= segment_parts(alias@, model@, effort@));
    parts
}

/// Message key of the status bar's permission label.
pub open spec fn permission_label_key(mode: Seq<char>) -> Seq<char> {
    if mode == "accept-edit"@ {
        "statusbar-permission-accept-edit"@
    } else if mode == "auto-mode"@ {
        "statusbar-permission-auto"@
    } else if mode == "bypass"@ {
        "statusbar-permission-bypass"@
    } else {
        "statusbar-permission-dont-ask"@
    }
}

/// Message key of the permission label for a stored mode label (unknown
/// labels read as the default mode, "don't ask").
pub fn permission_mode_display_key(mode: &str) -> (r: &'static str)
    ensures
        r@ == permission_label_key(mode@),
{
    if str_eq(mode, "accept-edit") {
        "statusbar-permission-accept-edit"
    } else if str_eq(mode, "auto-mode") {
        "statusbar-permission-auto"
    } else if str_eq(mode, "bypass") {
        "statusbar-permission-bypass"
    } else {
        "statusbar-permission-dont-ask"
    }
}

/// Colour role of the permission label.
#[derive(Debug, Clone, Copy, PartialEq, Eq, Structural)]
pub enum ModeTone {
    AcceptEdit,
    Auto,
    Bypass,
    Plain,
}

/// The colour role of a stored mode label.
pub fn permission_mode_color(mode: &str) -> (r: ModeTone)
    ensures
        r == if mode@ == "accept-edit"@ { ModeTone::AcceptEdit } else if mode@ == "auto-mode"@ { ModeTone::Auto }
            else if mode@ == "bypass"@ { ModeTone::Bypass } else { ModeTone::Plain },
{
    if str_eq(mode, "accept-edit") {
        ModeTone::AcceptEdit
    } else if str_eq(mode, "auto-mode") {
        ModeTone::Auto
    } else if str_eq(mode, "bypass") {
        ModeTone::Bypass
    } else {
        ModeTone::Plain
    }
}

/// The last component of a path, as `std::path::Path::file_name` gives it
/// (none for "/", "" or a path ending in "..").
pub uninterp spec fn path_file_name(path: Seq<char>) -> Option<Seq<char>>;

/// `std::path::Path::file_name` on a path given as text (the name of a path
/// built from `&str` is valid Unicode, so the conversion back cannot fail).
#[verifier::external_body]
fn file_name_of(path: &str) -> (r: Option<String>)
    ensures
        match r {
            Some(s) => path_file_name(path@) == Some(s@),
            None => path_file_name(path@) is None,
        },
{
    std::path::Path::new(path).file_name().and_then(|n| n.to_str()).map(|s| s.to_string())
}

/// The name the status bar shows for the working directory: its last
/// component, or the whole text when it has none.
pub fn cwd_basename(cwd: &str) -> (r: String)
    ensures
        r@ == match path_file_name(cwd@) { Some(n) => n, None => cwd@ },
{
    match file_name_of(cwd) {
        Some(n) => n,
        None => cwd.to_string(),
    }
}

/// Load level of a resource reading.
#[derive(Debug, Clone, Copy, PartialEq, Eq, Structural)]
pub enum ResourceLevel {
    Good,
    Warn,
    Bad,
}

/// Memory level: above 1024 MB bad, above 512 MB a warning, else good.
pub fn memory_color(mem_mb: u64) -> (r: ResourceLevel)
    ensures
        r == if mem_mb > 1024 { ResourceLevel::Bad } else if mem_mb > 512 { ResourceLevel::Warn } else { ResourceLevel::Good },
{
    if mem_mb > 1024 {
        ResourceLevel::Bad
    } else if mem_mb > 512 {
        ResourceLevel::Warn
    } else {
        ResourceLevel::Good
    }
}

/// More memory never gives a better level.
pub proof fn law_memory_level_monotone(a: u64, b: u64)
    requires
        a <= b,
    ensures
        (if a > 1024 { 2int } else if a > 512 { 1int } else { 0int }) <= (if b > 1024 { 2int } else if b > 512 { 1int } else { 0int }),
{
}

/// What the model segment shows: the model name, else the alias, else nothing.
pub fn model_display<'a>(model_name: &'a str, model_alias: &'a str) -> (r: &'a str)
    ensures
        r@ == if model_name@.len() > 0 { model_name@ } else { model_alias@ },
{
    if !model_name.is_empty() { model_name } else { model_alias }
}

/// Whether the provider/model segment is shown: both a provider and a model to show.
pub fn show_model_segment(provider_name: &str, model_name: &str, model_alias: &str) -> (r: bool)
    ensures
        r == (provider_name@.len() > 0 && (model_name@.len() > 0 || model_alias@.len() > 0)),
{
    !provider_name.is_empty() && !model_display(model_name, model_alias).is_empty()
}

/// Emphasis of a status segment while it flashes after a change.
#[derive(Debug, Clone, Copy, PartialEq, Eq, Structural)]
pub enum Emphasis {
    Plain,
    Bold,
    BoldBlink,
}

/// Emphasis of the provider/model segment: blinking when the model changed
/// lately, bold when only the provider did.
pub fn segment_emphasis(provider_highlighted: bool, model_highlighted: bool) -> (r: Emphasis)
    ensures
        r == if model_highlighted { Emphasis::BoldBlink } else if provider_highlighted { Emphasis::Bold } else { Emphasis::Plain },
{
    if provider_highlighted && model_highlighted {
        Emphasis::BoldBlink
    } else if provider_highlighted {
        Emphasis::Bold
    } else if model_highlighted {
        Emphasis::BoldBlink
    } else {
        Emphasis::Plain
    }
}

/// Whether a highlight that lasts until `until` is on at `now`.
pub fn highlight_active(until: Option<u64>, now: u64) -> (r: bool)
    ensures
        r == match until { Some(t) => t > now, None => false },
{
    match until {
        Some(t) => t > now,
        None => false,
    }
}

/// Number of entries equal to `k` among the first `n`.
pub open spec fn count_kind(kinds: Seq<Seq<char>>, k: Seq<char>, n: int) -> int
    decreases n,
{
    if n <= 0 { 0 } else { count_kind(kinds, k, n - 1) + if kinds[n - 1] == k { 1int } else { 0int } }
}

proof fn lemma_count_kind_le(kinds: Seq<Seq<char>>, k: Seq<char>, n: int)
    requires
        0 <= n,
    ensures
        0 <= count_kind(kinds, k, n) <= n,
    decreases n,
{
    if n > 0 {
        lemma_count_kind_le(kinds, k, n - 1);
    }
}

fn count_of(kinds: &Vec<String>, k: &str) -> (r: usize)
    ensures
        r as int == count_kind(crate::ask_user::strings_view(kinds@), k@, kinds@.len() as int),
{
    let ghost kv = crate::ask_user::strings_view(kinds@);
    let mut c: usize = 0;
    let mut i: usize = 0;
    while i < kinds.len()
        invariant
            kv == crate::ask_user::strings_view(kinds@),
            i <= kinds@.len(),
            c as int == count_kind(kv, k@, i as int),
        decreases kinds@.len() - i,
    {
        proof { lemma_count_kind_le(kv, k@, i as int); }
        if str_eq(kinds[i].as_str(), k) {
            c = c + 1;
        }
        i = i + 1;
    }
    c
}

/// Background-task summary: "<n> shell", "<n> agent", "<n> workflow" for the
/// kinds that occur, joined by spaces (empty when none run).
pub open spec fn task_summary(kinds: Seq<Seq<char>>) -> Seq<char> {
    let s = count_kind(kinds, "shell"@, kinds.len() as int);
    let a = count_kind(kinds, "agent"@, kinds.len() as int);
    let w = count_kind(kinds, "workflow"@, kinds.len() as int);
    let p1: Seq<Seq<char>> = if s > 0 { seq![crate::text::decimal(s as nat) + " shell"@] } else { Seq::empty() };
    let p2 = if a > 0 { p1.push(crate::text::decimal(a as nat) + " agent"@) } else { p1 };
    let p3 = if w > 0 { p2.push(crate::text::decimal(w as nat) + " workflow"@) } else { p2 };
    join_spaces(p3)
}

/// Parts joined with single spaces.
pub open spec fn join_spaces(parts: Seq<Seq<char>>) -> Seq<char>
    decreases parts.len(),
{
    if parts.len() == 0 {
        Seq::empty()
    } else if parts.len() == 1 {
        parts[0]
    } else {
        join_spaces(parts.drop_last()) + " "@ + parts.last()
    }
}

fn push_part(out: &mut String, first: &mut bool, n: usize, label: &str, Ghost(parts): Ghost<Seq<Seq<char>>>)
    requires
        *old(first) == (parts.len() == 0),
        old(out)@ == join_spaces(parts),
    ensures
        !*final(first),
        final(out)@ == join_spaces(parts.push(crate::text::decimal(n as nat) + label@)),
{
    let piece_n = u64_to_decimal(n as u64);
    if !*first {
        append_str(out, " ");
    }
    append_str(out, piece_n.as_str());
    append_str(out, label);
    *first = false;
    proof {
        let np = parts.push(crate::text::decimal(n as nat) + label@);
        assert(np.drop_last() =~= parts);
        if parts.len() == 0 {
            assert(join_spaces(np) == np[0]);
            assert(old(out)@ == Seq::<char>::empty());
            assert(final(out)@ =~= Seq::<char>::empty() + crate::text::decimal(n as nat) + label@);
        } else {
            assert(final(out)@ =~= join_spaces(parts) + " "@ + (crate::text::decimal(n as nat) + label@));
        }
    }
}

proof fn lemma_count_kind_filter(kinds: Seq<Seq<char>>, k: Seq<char>, f: spec_fn(Seq<char>) -> bool, n: int)
    requires
        0 <= n <= kinds.len(),
        forall|x: Seq<char>| #[trigger] f(x) == (x == k),
    ensures
        count_kind(kinds, k, n) == kinds.take(n).filter(f).len(),
    decreases n,
{
    reveal(Seq::filter);
    if n == 0 {
        assert(kinds.take(0) =~= Seq::<Seq<char>>::empty());
    } else {
        lemma_count_kind_filter(kinds, k, f, n - 1);
        assert(kinds.take(n).drop_last() =~= kinds.take(n - 1));
        assert(f(kinds.take(n).last()) == (kinds[n - 1] == k));
    }
}

proof fn lemma_join_ends_with_last(parts: Seq<Seq<char>>)
    requires
        parts.len() >= 1,
    ensures
        ({
            let j = join_spaces(parts);
            let l = parts.last();
            l.len() <= j.len() && j.subrange(j.len() - l.len(), j.len() as int) == l
        }),
{
    let j = join_spaces(parts);
    let l = parts.last();
    if parts.len() == 1 {
        assert(j.subrange(0, j.len() as int) =~= j);
    } else {
        let pre = join_spaces(parts.drop_last()) + " "@;
        assert(j == pre + l);
        assert(j.subrange(j.len() - l.len(), j.len() as int) =~= l);
    }
}

proof fn lemma_join_starts_with_first(parts: Seq<Seq<char>>)
    requires
        parts.len() >= 1,
    ensures
        ({
            let j = join_spaces(parts);
            parts[0].len() <= j.len() && j.take(parts[0].len() as int) == parts[0]
        }),
    decreases parts.len(),
{
    let j = join_spaces(parts);
    if parts.len() == 1 {
        assert(j.take(parts[0].len() as int) =~= parts[0]);
    } else {
        lemma_join_starts_with_first(parts.drop_last());
        let pre = join_spaces(parts.drop_last());
        assert(parts.drop_last()[0] == parts[0]);
        assert(j == pre + " "@ + parts.last());
        assert(j.take(parts[0].len() as int) =~= pre.take(parts[0].len() as int));
    }
}

/// The background-task summary names each kind that runs with its count:
/// "<s> shell" leads when shells run, "<w> workflow" ends it exactly when
/// workflows run (whatever else runs), "<a> agent" ends it when agents but no
/// workflows run, and it is empty exactly when nothing runs.
#[verifier::rlimit(40)]
pub proof fn law_task_summary_names_each_kind(kinds: Seq<Seq<char>>)
    ensures
        ({
            let sum = task_summary(kinds);
            let s = kinds.filter(|x: Seq<char>| x == "shell"@).len();
            let a = kinds.filter(|x: Seq<char>| x == "agent"@).len();
            let w = kinds.filter(|x: Seq<char>| x == "workflow"@).len();
            let sp = crate::text::decimal(s) + " shell"@;
            let ap = crate::text::decimal(a) + " agent"@;
            let wp = crate::text::decimal(w) + " workflow"@;
            &&& (sum.len() == 0 <==> (s == 0 && a == 0 && w == 0))
            &&& s > 0 ==> sp.len() <= sum.len() && sum.take(sp.len() as int) == sp
            &&& w > 0 ==> wp.len() <= sum.len() && sum.subrange(sum.len() - wp.len(), sum.len() as int) == wp
            &&& w == 0 && a > 0 ==> ap.len() <= sum.len() && sum.subrange(sum.len() - ap.len(), sum.len() as int) == ap
            &&& w == 0 && a == 0 && s > 0 ==> sum == sp
            &&& (sum.len() > 0 && sum.last() == 'w') <==> w > 0
        }),
{
    let n = kinds.len() as int;
    assert(kinds.take(n) =~= kinds);
    assert(kinds.filter(|x: Seq<char>| x == "shell"@).len() == count_kind(kinds, "shell"@, n)) by {
        lemma_count_kind_filter(kinds, "shell"@, |x: Seq<char>| x == "shell"@, n);
        assert(kinds.take(n).filter(|x: Seq<char>| x == "shell"@) == kinds.filter(|x: Seq<char>| x == "shell"@));
    }
    assert(kinds.filter(|x: Seq<char>| x == "agent"@).len() == count_kind(kinds, "agent"@, n)) by {
        lemma_count_kind_filter(kinds, "agent"@, |x: Seq<char>| x == "agent"@, n);
        assert(kinds.take(n).filter(|x: Seq<char>| x == "agent"@) == kinds.filter(|x: Seq<char>| x == "agent"@));
    }
    assert(kinds.filter(|x: Seq<char>| x == "workflow"@).len() == count_kind(kinds, "workflow"@, n)) by {
        lemma_count_kind_filter(kinds, "workflow"@, |x: Seq<char>| x == "workflow"@, n);
        assert(kinds.take(n).filter(|x: Seq<char>| x == "workflow"@) == kinds.filter(|x: Seq<char>| x == "workflow"@));
    }
    lemma_count_kind_le(kinds, "shell"@, n);
    lemma_count_kind_le(kinds, "agent"@, n);
    lemma_count_kind_le(kinds, "workflow"@, n);
    let s = count_kind(kinds, "shell"@, n);
    let a = count_kind(kinds, "agent"@, n);
    let w = count_kind(kinds, "workflow"@, n);
    reveal_strlit(" shell");
    reveal_strlit(" agent");
    reveal_strlit(" workflow");
    let sp = crate::text::decimal(s as nat) + " shell"@;
    let ap = crate::text::decimal(a as nat) + " agent"@;
    let wp = crate::text::decimal(w as nat) + " workflow"@;
    let p1: Seq<Seq<char>> = if s > 0 { seq![sp] } else { Seq::empty() };
    let p2 = if a > 0 { p1.push(ap) } else { p1 };
    let p3 = if w > 0 { p2.push(wp) } else { p2 };
    let sum = task_summary(kinds);
    assert(sum == join_spaces(p3));
    if s > 0 || a > 0 || w > 0 {
        assert(p3.len() >= 1);
    } else {
        assert(p3.len() == 0);
    }
    assert(sp.last() == 'l');
    assert(ap.last() == 't');
    assert(wp.last() == 'w');
    if p3.len() >= 1 {
        lemma_join_ends_with_last(p3);
        lemma_join_starts_with_first(p3);
        let l = p3.last();
        assert(l.len() >= 1);
        assert(sum.len() >= 1);
        assert(sum.last() == sum.subrange(sum.len() - l.len(), sum.len() as int)[l.len() - 1]);
        if s > 0 {
            assert(p3[0] == sp);
        }
    } else {
        assert(sum.len() == 0);
    }
    if w == 0 && a == 0 && s > 0 {
        assert(p3 == seq![sp]);
    }
    assert((sum.len() == 0) == (s == 0 && a == 0 && w == 0));
}

/// The background-task summary for the given task kinds.
pub fn bg_task_summary(kinds: &Vec<String>) -> (r: String)
    ensures
        r@ == task_summary(crate::ask_user::strings_view(kinds@)),
{
    let ghost kv = crate::ask_user::strings_view(kinds@);
    let s = count_of(kinds, "shell");
    let a = count_of(kinds, "agent");
    let w = count_of(kinds, "workflow");
    let mut out = String::new();
    let mut first = true;
    let ghost mut parts: Seq<Seq<char>> = Seq::empty();
    if s > 0 {
        push_part(&mut out, &mut first, s, " shell", Ghost(parts));
        proof { parts = parts.push(crate::text::decimal(s as nat) + " shell"@); }
    }
    if a > 0 {
        push_part(&mut out, &mut first, a, " agent", Ghost(parts));
        proof { parts = parts.push(crate::text::decimal(a as nat) + " agent"@); }
    }
    if w > 0 {
        push_part(&mut out, &mut first, w, " workflow", Ghost(parts));
        proof { parts = parts.push(crate::text::decimal(w as nat) + " workflow"@); }
    }
    proof {
        assert(Seq::<Seq<char>>::empty().push(crate::text::decimal(s as nat) + " shell"@)
            =~= seq![crate::text::decimal(s as nat) + " shell"@]);
    }
    out
}

/// The hint line under the status bar.
#[derive(Debug, Clone, Copy, PartialEq, Eq, Structural)]
pub enum StatusHint {
    /// "Copied <n> characters".
    Copied(usize),
    /// Press Ctrl+C again to quit.
    QuitPending,
    /// Keys of the open popup.
    Popup,
    /// Keys of the mention or command menu.
    Menu,
    /// The main keys.
    Main,
}

/// Which hint the second status line shows at `now` (milliseconds): a fresh
/// copy notice first, then a quit request of the last second, then the keys
/// of a popup, of a menu, or the main keys.
pub fn status_hint(now: u64, copy_until: Option<u64>, copy_count: usize, quit_since: Option<u64>,
    popup_open: bool, at_menu: bool, slash_menu: bool) -> (r: StatusHint)
    ensures
        r == if (match copy_until { Some(t) => now < t, None => false }) {
            StatusHint::Copied(copy_count)
        } else if (match quit_since { Some(t) => (if now >= t { now - t } else { 0 }) < 1000, None => false }) {
            StatusHint::QuitPending
        } else if popup_open {
            StatusHint::Popup
        } else if at_menu || slash_menu {
            StatusHint::Menu
        } else {
            StatusHint::Main
        },
{
    let copy_active = match copy_until { Some(t) => now < t, None => false };
    if copy_active {
        return StatusHint::Copied(copy_count);
    }
    let quit_active = match quit_since { Some(t) => now.saturating_sub(t) < 1000, None => false };
    if quit_active {
        StatusHint::QuitPending
    } else if popup_open {
        StatusHint::Popup
    } else if at_menu || slash_menu {
        StatusHint::Menu
    } else {
        StatusHint::Main
    }
}

/// Whether a notification is shown at `now`: before it expires and not empty.
pub fn notification_visible(message: &str, until: u64, now: u64) -> (r: bool)
    ensures
        r == (now < until && message@.len() > 0),
{
    now < until && !message.is_empty()
}

} // verus!
