//! The watch system's decisions: which file-system events are relevant, when a build is
//! started, and what a finished build reports to the browser.
//!
//! Times are monotonic timestamps (for instance nanoseconds since start) that the caller reads
//! from its clock.
use crate::split::{find_from, first_index_from, lemma_first_index_bounds, slice_chars};
use crate::text::{chars_of, decimal, has_prefix, str_eq, string_of_chars, to_owned_string, usize_to_decimal};
use crate::ws::State;
use vstd::prelude::*;

verus! {

/// The message of a failed build: its error, a blank line, and when it has causes, a
/// `Caused by:` line followed by each cause, numbered from 0 and indented by a tab.
pub open spec fn error_reason(chain: Seq<Seq<char>>) -> Seq<char> {
    if chain.len() == 0 {
        "\n\n"@
    } else {
        chain[0] + "\n\n"@ + causes_text(chain.drop_first(), 0)
    }
}

/// The numbered lines of causes, starting at `i`.
pub open spec fn causes_text(causes: Seq<Seq<char>>, i: nat) -> Seq<char>
    decreases causes.len(),
{
    if causes.len() == 0 {
        Seq::empty()
    } else {
        (if i == 0 { "Caused by:\n"@ } else { Seq::empty() }) + "\t"@ + decimal(i) + ": "@ + causes[0] + "\n"@
            + causes_text(causes.drop_first(), i + 1)
    }
}

/// The message of a failed build, from its error chain: the error, then its sources in turn.
pub fn build_error_reason(chain: &Vec<String>) -> (res: String)
    ensures
        res@ == error_reason(chain@.map_values(|s: String| s@)),
{
    let ghost cv = chain@.map_values(|s: String| s@);
    let mut result = String::new();
    if chain.len() > 0 {
        result.append(chain[0].as_str());
    }
    result.append("\n\n");
    if chain.len() == 0 {
        return result;
    }
    let mut i: usize = 1;
    while i < chain.len()
        invariant
            1 <= i <= chain.len(),
            cv == chain@.map_values(|s: String| s@),
            result@ + causes_text(cv.subrange(i as int, cv.len() as int), (i - 1) as nat) == error_reason(cv),
        decreases chain.len() - i,
    {
        let ghost rest = cv.subrange(i as int, cv.len() as int);
        assert(rest.drop_first() =~= cv.subrange(i + 1, cv.len() as int));
        assert(rest[0] == chain@[i as int]@);
        if i == 1 {
            result.append("Caused by:\n");
        }
        result.append("\t");
        let n = usize_to_decimal(i - 1);
        result.append(n.as_str());
        result.append(": ");
        result.append(chain[i].as_str());
        result.append("\n");
        proof {
            reveal_strlit("Caused by:\n");
        }
        assert(result@ + causes_text(cv.subrange(i + 1, cv.len() as int), i as nat) =~= error_reason(cv));
        i = i + 1;
    }
    proof {
        assert(cv.subrange(1, cv.len() as int) =~= cv.drop_first());
        assert(cv.subrange(i as int, cv.len() as int) =~= Seq::<Seq<char>>::empty());
    }
    result
}

/// The pieces of a path that count as components: not empty and not `.`.
pub open spec fn keep(p: Seq<char>) -> Seq<Seq<char>> {
    if p.len() == 0 || p == seq!['.'] {
        Seq::empty()
    } else {
        seq![p]
    }
}

/// The components of a path: its `/`-separated pieces that are not empty and not `.`.
pub open spec fn comps(s: Seq<char>) -> Seq<Seq<char>>
    decreases s.len(),
{
    let k = first_index_from(s, seq!['/'], 0);
    if k < 0 {
        keep(s)
    } else {
        proof {
            lemma_first_index_bounds(s, seq!['/'], 0);
        }
        keep(s.subrange(0, k)) + comps(s.subrange(k + 1, s.len() as int))
    }
}

/// Two paths are equal as `Path`s: both absolute or both relative, with the same components.
pub open spec fn same_path(a: Seq<char>, b: Seq<char>) -> bool {
    has_prefix(a, "/"@) == has_prefix(b, "/"@) && comps(a) == comps(b)
}

/// `a` is `b` or one of its ancestors: both absolute or both relative, and the components of
/// `a` begin those of `b`.
pub open spec fn is_ancestor(a: Seq<char>, b: Seq<char>) -> bool {
    has_prefix(a, "/"@) == has_prefix(b, "/"@) && comps(a).len() <= comps(b).len()
        && comps(b).subrange(0, comps(a).len() as int) == comps(a)
}

/// The components of a path.
pub fn path_components(path: &str) -> (res: Vec<String>)
    ensures
        res@.map_values(|c: String| c@) == comps(path@),
{
    let slash: Vec<char> = vec!['/'];
    assert(slash@ =~= seq!['/']);
    let mut out: Vec<String> = Vec::new();
    let mut cur: Vec<char> = chars_of(path);
    loop
        invariant
            slash@ == seq!['/'],
            out@.map_values(|c: String| c@) + comps(cur@) == comps(path@),
        decreases cur.len(),
    {
        let ghost before = out@.map_values(|c: String| c@);
        match find_from(cur.as_slice(), slash.as_slice(), 0) {
            None => {
                let keep_it = cur.len() > 0 && !(cur.len() == 1 && cur[0] == '.');
                if keep_it {
                    assert(cur@ != seq!['.']);
                    out.push(string_of_chars(cur.as_slice()));
                } else {
                    assert(cur@.len() == 0 || cur@ =~= seq!['.']);
                }
                assert(out@.map_values(|c: String| c@) =~= before + keep(cur@));
                return out;
            },
            Some(k) => {
                proof {
                    lemma_first_index_bounds(cur@, slash@, 0);
                }
                let piece = slice_chars(cur.as_slice(), 0, k);
                let keep_it = piece.len() > 0 && !(piece.len() == 1 && piece[0] == '.');
                if keep_it {
                    assert(piece@ != seq!['.']);
                    out.push(string_of_chars(piece.as_slice()));
                } else {
                    assert(piece@.len() == 0 || piece@ =~= seq!['.']);
                }
                assert(out@.map_values(|c: String| c@) =~= before + keep(piece@));
                let clen = cur.len();
                let next = slice_chars(cur.as_slice(), k + 1, clen);
                cur = next;
            },
        }
    }
}

fn strings_eq(a: &Vec<String>, b: &Vec<String>, n: usize) -> (res: bool)
    requires
        n <= a.len(),
        n <= b.len(),
    ensures
        res == (a@.map_values(|c: String| c@).subrange(0, n as int) == b@.map_values(|c: String| c@).subrange(0, n as int)),
{
    let ghost av = a@.map_values(|c: String| c@);
    let ghost bv = b@.map_values(|c: String| c@);
    let mut i: usize = 0;
    while i < n
        invariant
            i <= n <= a.len(),
            n <= b.len(),
            av == a@.map_values(|c: String| c@),
            bv == b@.map_values(|c: String| c@),
            av.subrange(0, i as int) == bv.subrange(0, i as int),
        decreases n - i,
    {
        if !str_eq(a[i].as_str(), b[i].as_str()) {
            assert(av.subrange(0, n as int)[i as int] != bv.subrange(0, n as int)[i as int]);
            return false;
        }
        assert(av.subrange(0, i + 1) =~= av.subrange(0, i as int).push(av[i as int]));
        assert(bv.subrange(0, i + 1) =~= bv.subrange(0, i as int).push(bv[i as int]));
        i = i + 1;
    }
    true
}

/// Whether `a` is `b` or one of its ancestors.
pub fn ancestor_of(a: &str, b: &str) -> (res: bool)
    ensures
        res == is_ancestor(a@, b@),
{
    let ca = path_components(a);
    let cb = path_components(b);
    if crate::text::starts_with(a, "/") != crate::text::starts_with(b, "/") || ca.len() > cb.len() {
        return false;
    }
    let r = strings_eq(&ca, &cb, ca.len());
    assert(ca@.map_values(|c: String| c@).subrange(0, ca.len() as int) =~= ca@.map_values(|c: String| c@));
    r
}

/// Whether two paths are equal as `Path`s.
pub fn path_eq(a: &str, b: &str) -> (res: bool)
    ensures
        res == same_path(a@, b@),
{
    let ca = path_components(a);
    let cb = path_components(b);
    assert(comps(a@).len() == ca.len() && comps(b@).len() == cb.len());
    if crate::text::starts_with(a, "/") != crate::text::starts_with(b, "/") || ca.len() != cb.len() {
        return false;
    }
    let r = strings_eq(&ca, &cb, ca.len());
    assert(ca@.map_values(|c: String| c@).subrange(0, ca.len() as int) =~= ca@.map_values(|c: String| c@));
    assert(cb@.map_values(|c: String| c@).subrange(0, ca.len() as int) =~= cb@.map_values(|c: String| c@));
    r
}

/// The kind of a file-system event, as far as relevance goes.
#[derive(Clone, Copy, Debug, PartialEq, Eq, Structural)]
pub enum EventKind {
    /// A rename.
    ModifyName,
    /// A change of the contents.
    ModifyData,
    /// A change of the modification time.
    ModifyWriteTime,
    /// A change of an unknown sort.
    ModifyAny,
    /// Another change of metadata, or another modification.
    ModifyOther,
    Create,
    Remove,
    /// Any other event (an access, for instance).
    Other,
}

/// Whether events of a kind can trigger a build.
pub open spec fn kind_relevant(k: EventKind) -> bool {
    match k {
        EventKind::ModifyName | EventKind::ModifyData | EventKind::ModifyWriteTime | EventKind::ModifyAny
        | EventKind::Create | EventKind::Remove => true,
        _ => false,
    }
}

/// A path with a component that is always ignored (`.git` or `.DS_Store`).
pub open spec fn blacklisted(p: Seq<char>) -> bool {
    exists|i: int| 0 <= i < comps(p).len() && (comps(p)[i] == ".git"@ || comps(p)[i] == ".DS_Store"@)
}

/// A path that one of the ignored paths is, or is an ancestor of.
pub open spec fn ignored(p: Seq<char>, ignored_paths: Seq<String>) -> bool {
    exists|i: int| 0 <= i < ignored_paths.len() && is_ancestor(#[trigger] ignored_paths[i]@, p)
}

/// Whether a path of an event can trigger a build.
pub open spec fn path_relevant(p: Seq<char>, ignored_paths: Seq<String>) -> bool {
    !ignored(p, ignored_paths) && !blacklisted(p)
}

/// Whether an event's path, when it could be canonicalized, can trigger a build.
pub open spec fn entry_relevant(e: Option<String>, ignored_paths: Seq<String>) -> bool {
    match e {
        Some(p) => path_relevant(p@, ignored_paths),
        None => false,
    }
}

fn is_blacklisted(p: &str) -> (res: bool)
    ensures
        res == blacklisted(p@),
{
    let cs = path_components(p);
    let ghost cv = cs@.map_values(|c: String| c@);
    let mut i: usize = 0;
    while i < cs.len()
        invariant
            i <= cs.len(),
            cv == cs@.map_values(|c: String| c@),
            cv == comps(p@),
            forall|j: int| 0 <= j < i ==> !(cv[j] == ".git"@ || cv[j] == ".DS_Store"@),
        decreases cs.len() - i,
    {
        if str_eq(cs[i].as_str(), ".git") || str_eq(cs[i].as_str(), ".DS_Store") {
            assert(cv[i as int] == cs@[i as int]@);
            return true;
        }
        i = i + 1;
    }
    false
}

fn is_ignored(p: &str, ignored_paths: &Vec<String>) -> (res: bool)
    ensures
        res == ignored(p@, ignored_paths@),
{
    let mut i: usize = 0;
    while i < ignored_paths.len()
        invariant
            i <= ignored_paths.len(),
            forall|j: int| 0 <= j < i ==> !is_ancestor(#[trigger] ignored_paths@[j]@, p@),
        decreases ignored_paths.len() - i,
    {
        if ancestor_of(ignored_paths[i].as_str(), p) {
            return true;
        }
        i = i + 1;
    }
    false
}

/// Whether an event can trigger a build: its kind is relevant, and one of its paths, as far as
/// it could be canonicalized (`None` otherwise), is neither ignored nor blacklisted.
pub fn is_event_relevant(kind: EventKind, paths: &Vec<Option<String>>, ignored_paths: &Vec<String>) -> (res: bool)
    ensures
        res == (kind_relevant(kind) && exists|j: int| 0 <= j < paths@.len() && entry_relevant(#[trigger] paths@[j], ignored_paths@)),
{
    match kind {
        EventKind::ModifyName | EventKind::ModifyData | EventKind::ModifyWriteTime | EventKind::ModifyAny
        | EventKind::Create | EventKind::Remove => {},
        _ => return false,
    }
    let mut i: usize = 0;
    while i < paths.len()
        invariant
            i <= paths.len(),
            forall|j: int| 0 <= j < i ==> !entry_relevant(#[trigger] paths@[j], ignored_paths@),
            kind_relevant(kind),
        decreases paths.len() - i,
    {
        match &paths[i] {
            Some(p) => {
                if !is_ignored(p.as_str(), ignored_paths) && !is_blacklisted(p.as_str()) {
                    assert(entry_relevant(paths@[i as int], ignored_paths@));
                    return true;
                }
            },
            None => {},
        }
        i = i + 1;
    }
    false
}

/// What checking for a build decides.
#[derive(Clone, Copy, Debug, PartialEq, Eq, Structural)]
pub enum BuildDecision {
    /// Nothing changed since the last build started.
    NoChanges,
    /// The last change came too soon after the last build finished.
    CoolingDown { remaining: u64 },
    /// Start a build, clearing the screen first when so configured.
    Start { clear_screen: bool },
}

/// What a file-system event leads to.
#[derive(Clone, Copy, Debug, PartialEq, Eq, Structural)]
pub enum EventOutcome {
    /// The event is not relevant.
    Irrelevant,
    /// A build is running; the change is picked up when it finishes.
    Postponed,
    /// The check for a build was made.
    Checked(BuildDecision),
}

/// The state of the watch system.
#[derive(Clone, Debug)]
pub struct WatchState {
    /// The paths whose changes are ignored.
    pub ignored_paths: Vec<String>,
    /// When the last build started.
    pub last_build_started: u64,
    /// When the last build finished.
    pub last_build_finished: u64,
    /// When the last relevant change was seen.
    pub last_change: u64,
    /// The cooldown after a build, when enabled.
    pub cooldown: Option<u64>,
    /// Whether the screen is cleared before each build.
    pub clear_screen: bool,
    /// Whether build errors are kept from the browser.
    pub no_error_reporting: bool,
}

impl WatchState {
    /// A watch system that starts at `now`.
    pub fn new(now: u64, ignored_paths: Vec<String>, cooldown: Option<u64>, clear_screen: bool, no_error_reporting: bool) -> (res: WatchState)
        ensures
            res.ignored_paths@ == ignored_paths@,
            res.last_build_started == now,
            res.last_build_finished == now,
            res.last_change == now,
            res.cooldown == cooldown,
            res.clear_screen == clear_screen,
            res.no_error_reporting == no_error_reporting,
    {
        WatchState {
            ignored_paths,
            last_build_started: now,
            last_build_finished: now,
            last_change: now,
            cooldown,
            clear_screen,
            no_error_reporting,
        }
    }

    /// A build is running: the last one started after the last one finished.
    pub open spec fn build_active(&self) -> bool {
        self.last_build_started > self.last_build_finished
    }

    /// What checking for a build at `now` decides, over the state before.
    pub open spec fn decision(&self) -> BuildDecision {
        if self.last_change <= self.last_build_started {
            BuildDecision::NoChanges
        } else {
            match self.cooldown {
                Some(c) => {
                    let since: int = if self.last_change >= self.last_build_finished {
                        self.last_change - self.last_build_finished
                    } else {
                        0
                    };
                    if since < c {
                        BuildDecision::CoolingDown { remaining: (c - since) as u64 }
                    } else {
                        BuildDecision::Start { clear_screen: self.clear_screen }
                    }
                },
                None => BuildDecision::Start { clear_screen: self.clear_screen },
            }
        }
    }

    /// Whether a build is running.
    pub fn is_build_active(&self) -> (res: bool)
        ensures
            res == self.build_active(),
    {
        self.last_build_started > self.last_build_finished
    }

    /// Check whether a build starts at `now`: only when something changed since the last build
    /// started, and the change did not come within the cooldown after the last build finished.
    /// A build that starts is recorded as started at `now`.
    pub fn check_spawn_build(&mut self, now: u64) -> (res: BuildDecision)
        ensures
            res == old(self).decision(),
            res is Start ==> final(self).last_build_started == now,
            !(res is Start) ==> final(self).last_build_started == old(self).last_build_started,
            final(self).last_build_finished == old(self).last_build_finished,
            final(self).last_change == old(self).last_change,
            final(self).ignored_paths@ == old(self).ignored_paths@,
            final(self).cooldown == old(self).cooldown,
            final(self).clear_screen == old(self).clear_screen,
            final(self).no_error_reporting == old(self).no_error_reporting,
    {
        if self.last_change <= self.last_build_started {
            return BuildDecision::NoChanges;
        }
        if let Some(c) = self.cooldown {
            let since = self.last_change.saturating_sub(self.last_build_finished);
            if since < c {
                return BuildDecision::CoolingDown { remaining: c - since };
            }
        }
        self.last_build_started = now;
        BuildDecision::Start { clear_screen: self.clear_screen }
    }

    /// Handle a file-system event at `now` that is relevant or not.
    pub fn handle_watch_event(&mut self, relevant: bool, now: u64) -> (res: EventOutcome)
        ensures
            !relevant ==> res == EventOutcome::Irrelevant && *final(self) == *old(self),
            relevant && old(self).build_active() ==> res == EventOutcome::Postponed
                && final(self).last_change == now
                && final(self).last_build_started == old(self).last_build_started,
            relevant && !old(self).build_active() ==> ({
                let mid = WatchState { last_change: now, ..*old(self) };
                &&& res == EventOutcome::Checked(mid.decision())
                &&& final(self).last_change == now
                &&& mid.decision() is Start ==> final(self).last_build_started == now
                &&& !(mid.decision() is Start) ==> final(self).last_build_started == old(self).last_build_started
            }),
            final(self).last_build_finished == old(self).last_build_finished,
            final(self).ignored_paths@ == old(self).ignored_paths@,
    {
        if !relevant {
            return EventOutcome::Irrelevant;
        }
        self.last_change = now;
        if self.is_build_active() {
            return EventOutcome::Postponed;
        }
        EventOutcome::Checked(self.check_spawn_build(now))
    }

    /// A build finished at `now`, with its error chain when it failed. Gives the state to report
    /// to the browser (nothing for a failure when error reporting is off), and checks whether
    /// another build starts.
    pub fn build_complete(&mut self, result: &Result<(), Vec<String>>, now: u64) -> (res: (Option<State>, BuildDecision))
        ensures
            final(self).last_build_finished == now,
            final(self).last_change == old(self).last_change,
            match result {
                Ok(()) => res.0 == Some(State::Success),
                Err(chain) => if old(self).no_error_reporting {
                    res.0 is None
                } else {
                    res.0 matches Some(State::Failed { reason }) && reason@ == error_reason(chain@.map_values(|s: String| s@))
                },
            },
            res.1 == (WatchState { last_build_finished: now, ..*old(self) }).decision(),
            res.1 is Start ==> final(self).last_build_started == now,
            !(res.1 is Start) ==> final(self).last_build_started == old(self).last_build_started,
    {
        self.last_build_finished = now;
        let report = match result {
            Ok(()) => Some(State::Success),
            Err(chain) => if self.no_error_reporting {
                None
            } else {
                Some(State::Failed { reason: build_error_reason(chain) })
            },
        };
        let d = self.check_spawn_build(now);
        (report, d)
    }

    /// Ignore `path` (canonicalized when possible) from now on, unless it is ignored already.
    pub fn update_ignore_list(&mut self, path: String)
        ensures
            (exists|i: int| 0 <= i < old(self).ignored_paths@.len() && same_path(#[trigger] old(self).ignored_paths@[i]@, path@))
                ==> final(self).ignored_paths@ == old(self).ignored_paths@,
            !(exists|i: int| 0 <= i < old(self).ignored_paths@.len() && same_path(#[trigger] old(self).ignored_paths@[i]@, path@))
                ==> final(self).ignored_paths@ == old(self).ignored_paths@.push(path),
            final(self).last_build_started == old(self).last_build_started,
            final(self).last_build_finished == old(self).last_build_finished,
            final(self).last_change == old(self).last_change,
    {
        let mut i: usize = 0;
        let mut found = false;
        while i < self.ignored_paths.len()
            invariant_except_break
                !found,
            invariant
                i <= self.ignored_paths.len(),
                self.ignored_paths@ == old(self).ignored_paths@,
                forall|j: int| 0 <= j < i ==> !same_path(#[trigger] self.ignored_paths@[j]@, path@),
            ensures
                self.ignored_paths@ == old(self).ignored_paths@,
                found ==> i < self.ignored_paths.len() && same_path(self.ignored_paths@[i as int]@, path@),
                !found ==> forall|j: int| 0 <= j < self.ignored_paths.len() ==> !same_path(#[trigger] self.ignored_paths@[j]@, path@),
            decreases self.ignored_paths.len() - i,
        {
            if path_eq(self.ignored_paths[i].as_str(), path.as_str()) {
                found = true;
                break;
            }
            i = i + 1;
        }
        if !found {
            self.ignored_paths.push(path);
        }
    }
}

/// Once a path is in the ignore list (as `update_ignore_list` leaves it: appended, or already
/// there as the same path), no change at or under it triggers a build.
pub proof fn law_ignored_after_update(before: Seq<String>, after: Seq<String>, path: String, p: Seq<char>)
    requires
        after == before.push(path) || (after == before && exists|i: int| 0 <= i < before.len() && same_path(#[trigger] before[i]@, path@)),
        is_ancestor(path@, p),
    ensures
        !path_relevant(p, after),
{
    if after == before.push(path) {
        assert(after[before.len() as int] == path);
        assert(is_ancestor(after[before.len() as int]@, p));
    } else {
        let i = choose|i: int| 0 <= i < before.len() && same_path(#[trigger] before[i]@, path@);
        assert(is_ancestor(after[i]@, p));
    }
}


/// No change seen within the cooldown after a build finished starts a build: checking at the
/// time of such a change gives no `Start`.
pub proof fn law_no_build_within_cooldown(s: WatchState, now: u64, c: u64)
    requires
        s.cooldown == Some(c),
        s.last_build_finished <= now,
        now - s.last_build_finished < c,
    ensures
        (!((WatchState { last_change: now, ..s }).decision() is Start)),
{
}

/// Without a cooldown, a change seen while a build runs starts the next build when that build
/// finishes: checking after the completion at `finished` gives `Start`.
pub proof fn law_change_during_build_is_built_next(s: WatchState, changed: u64, finished: u64)
    requires
        (s.cooldown is None),
        s.build_active(),
        s.last_build_started < changed,
    ensures
        ((WatchState { last_change: changed, last_build_finished: finished, ..s }).decision() == (BuildDecision::Start {
            clear_screen: s.clear_screen,
        })),
{
}


/// A rename, a change of contents, of the modification time or of an unknown sort, a creation
/// and a removal are the changes that count: such an event that touches a path that is neither
/// ignored nor blacklisted is relevant. Other modifications of metadata, and any other event
/// (an access, for instance), never are.
pub proof fn law_relevant_event_kinds(kind: EventKind, paths: Seq<Option<String>>, ignored_paths: Seq<String>, j: int)
    requires
        0 <= j < paths.len(),
        entry_relevant(paths[j], ignored_paths),
    ensures
        (kind == EventKind::ModifyName || kind == EventKind::ModifyData || kind == EventKind::ModifyWriteTime
            || kind == EventKind::ModifyAny || kind == EventKind::Create || kind == EventKind::Remove) ==> (
        kind_relevant(kind) && exists|i: int| 0 <= i < paths.len() && entry_relevant(#[trigger] paths[i], ignored_paths)),
        (kind == EventKind::ModifyOther || kind == EventKind::Other) ==> !kind_relevant(kind),
{
}

} // verus!
