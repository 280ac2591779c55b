//! Versions of trunk itself: which published version is announced as an update, and whether
//! the running version meets what a project requires. Versions are compared by `semver`.
use crate::text::to_owned_string;
use vstd::prelude::*;

verus! {

/// Whether `semver::Version::parse` accepts the text.
pub uninterp spec fn semver_parses(s: Seq<char>) -> bool;

/// Whether the version that the text parses to has a pre-release part.
pub uninterp spec fn semver_is_pre(s: Seq<char>) -> bool;

/// Whether the version that `a` parses to is greater than the one `b` parses to, in
/// `semver::Version`'s order.
pub uninterp spec fn semver_greater(a: Seq<char>, b: Seq<char>) -> bool;

/// Whether `semver::VersionReq::parse` accepts the text.
pub uninterp spec fn semver_req_parses(s: Seq<char>) -> bool;

/// Whether the requirement that the text parses to is `VersionReq::STAR`.
pub uninterp spec fn semver_req_is_star(s: Seq<char>) -> bool;

/// Whether the requirement `r` matches the version `v` (`VersionReq::matches`).
pub uninterp spec fn semver_req_matches(r: Seq<char>, v: Seq<char>) -> bool;

/// How the requirement that the text parses to is displayed (`VersionReq`'s `Display`).
pub uninterp spec fn semver_req_text(s: Seq<char>) -> Seq<char>;

/// How the version that the text parses to is displayed (`Version`'s `Display`).
pub uninterp spec fn semver_version_text(s: Seq<char>) -> Seq<char>;

/// `semver::Version::parse`, as whether it succeeds.
#[verifier::external_body]
fn version_parses(s: &str) -> (res: bool)
    ensures
        res == semver_parses(s@),
{
    semver::Version::parse(s).is_ok()
}

/// `Prerelease::is_empty` of a parsed version, negated.
#[verifier::external_body]
fn version_is_pre(s: &str) -> (res: bool)
    requires
        semver_parses(s@),
    ensures
        res == semver_is_pre(s@),
{
    match semver::Version::parse(s) {
        Ok(v) => !v.pre.is_empty(),
        Err(_) => false,
    }
}

/// `>` between two parsed versions.
#[verifier::external_body]
fn version_greater(a: &str, b: &str) -> (res: bool)
    requires
        semver_parses(a@),
        semver_parses(b@),
    ensures
        res == semver_greater(a@, b@),
{
    match (semver::Version::parse(a), semver::Version::parse(b)) {
        (Ok(a), Ok(b)) => a > b,
        _ => false,
    }
}

/// `semver::VersionReq::parse`, as whether it succeeds.
#[verifier::external_body]
fn req_parses(s: &str) -> (res: bool)
    ensures
        res == semver_req_parses(s@),
{
    semver::VersionReq::parse(s).is_ok()
}

/// Whether a parsed requirement equals `VersionReq::STAR`.
#[verifier::external_body]
fn req_is_star(s: &str) -> (res: bool)
    requires
        semver_req_parses(s@),
    ensures
        res == semver_req_is_star(s@),
{
    match semver::VersionReq::parse(s) {
        Ok(r) => r == semver::VersionReq::STAR,
        Err(_) => false,
    }
}

/// The display of a parsed requirement.
#[verifier::external_body]
fn req_display(s: &str) -> (res: String)
    requires
        semver_req_parses(s@),
    ensures
        res@ == semver_req_text(s@),
{
    match semver::VersionReq::parse(s) {
        Ok(r) => r.to_string(),
        Err(_) => String::new(),
    }
}

/// The display of a parsed version.
#[verifier::external_body]
fn version_display(s: &str) -> (res: String)
    requires
        semver_parses(s@),
    ensures
        res@ == semver_version_text(s@),
{
    match semver::Version::parse(s) {
        Ok(v) => v.to_string(),
        Err(_) => String::new(),
    }
}

/// `VersionReq::matches` between a parsed requirement and a parsed version.
#[verifier::external_body]
fn req_matches(r: &str, v: &str) -> (res: bool)
    requires
        semver_req_parses(r@),
        semver_parses(v@),
    ensures
        res == semver_req_matches(r@, v@),
{
    match (semver::VersionReq::parse(r), semver::Version::parse(v)) {
        (Ok(r), Ok(v)) => r.matches(&v),
        _ => false,
    }
}

/// The most recent release and pre-release (or release) versions that were published.
#[derive(Clone, Debug, PartialEq, Eq)]
pub struct Versions {
    pub release: Option<String>,
    pub prerelease: Option<String>,
}

/// A published version: its number and whether it was yanked.
#[derive(Clone, Debug)]
pub struct CrateVersion {
    pub num: String,
    pub yanked: bool,
}

/// The greatest of the versions in `vs` that `keep` selects, in `semver` order; of equal ones
/// the last. Scanning left to right, a version replaces the best so far unless that one is
/// greater.
pub open spec fn scan_max(vs: Seq<Seq<char>>, pre_too: bool) -> Option<Seq<char>>
    decreases vs.len(),
{
    if vs.len() == 0 {
        None
    } else {
        let prev = scan_max(vs.drop_last(), pre_too);
        let v = vs.last();
        if !semver_parses(v) || (!pre_too && semver_is_pre(v)) {
            prev
        } else {
            match prev {
                Some(b) => if semver_greater(b, v) { Some(b) } else { Some(v) },
                None => Some(v),
            }
        }
    }
}

/// The numbers of the versions that were not yanked, in order.
pub open spec fn live_numbers(vs: Seq<CrateVersion>) -> Seq<Seq<char>>
    decreases vs.len(),
{
    if vs.len() == 0 {
        Seq::empty()
    } else if vs.last().yanked {
        live_numbers(vs.drop_last())
    } else {
        live_numbers(vs.drop_last()).push(vs.last().num@)
    }
}

/// The most recent versions among those published: of the versions that were not yanked and
/// parse, the greatest without a pre-release part, and the greatest of all.
pub fn versions_from_response(versions: &Vec<CrateVersion>) -> (res: Versions)
    ensures
        crate::sri::opt_view(res.release) == scan_max(live_numbers(versions@), false),
        crate::sri::opt_view(res.prerelease) == scan_max(live_numbers(versions@), true),
        res.release matches Some(r) ==> semver_parses(r@),
        res.prerelease matches Some(r) ==> semver_parses(r@),
{
    let mut release: Option<String> = None;
    let mut prerelease: Option<String> = None;
    let mut i: usize = 0;
    while i < versions.len()
        invariant
            i <= versions.len(),
            crate::sri::opt_view(release) == scan_max(live_numbers(versions@.subrange(0, i as int)), false),
            crate::sri::opt_view(prerelease) == scan_max(live_numbers(versions@.subrange(0, i as int)), true),
        decreases versions.len() - i,
    {
        let ghost pre = versions@.subrange(0, i as int);
        let ghost cur = versions@.subrange(0, i + 1);
        assert(cur.drop_last() =~= pre);
        assert(cur.last() == versions@[i as int]);
        let v = &versions[i];
        if !v.yanked {
            let ghost live = live_numbers(cur);
            assert(live.drop_last() == live_numbers(pre));
            assert(live.last() == v.num@);
            if version_parses(v.num.as_str()) {
                let pre_part = version_is_pre(v.num.as_str());
                proof {
                    lemma_scan_max_parses(live_numbers(pre), true);
                }
                let replace_pre = match &prerelease {
                    Some(b) => !version_greater(b.as_str(), v.num.as_str()),
                    None => true,
                };
                if replace_pre {
                    prerelease = Some(v.num.clone());
                }
                if !pre_part {
                    let replace_rel = match &release {
                        Some(b) => {
                            proof {
                                lemma_scan_max_parses(live_numbers(pre), false);
                            }
                            !version_greater(b.as_str(), v.num.as_str())
                        },
                        None => true,
                    };
                    if replace_rel {
                        release = Some(v.num.clone());
                    }
                }
            }
        }
        i = i + 1;
    }
    assert(versions@.subrange(0, versions@.len() as int) =~= versions@);
    proof {
        lemma_scan_max_parses(live_numbers(versions@), false);
        lemma_scan_max_parses(live_numbers(versions@), true);
    }
    Versions { release, prerelease }
}

proof fn lemma_scan_max_parses(vs: Seq<Seq<char>>, pre_too: bool)
    ensures
        scan_max(vs, pre_too) matches Some(b) ==> semver_parses(b),
    decreases vs.len(),
{
    if vs.len() > 0 {
        lemma_scan_max_parses(vs.drop_last(), pre_too);
    }
}

/// The version to announce as an update of the running version `current`: the most recent
/// pre-release when `current` is a pre-release, the most recent release otherwise, when it is
/// greater than `current`. Nothing when `current` does not parse.
pub fn update_to_announce(current: &str, versions: &Versions) -> (res: Option<String>)
    requires
        versions.release matches Some(r) ==> semver_parses(r@),
        versions.prerelease matches Some(r) ==> semver_parses(r@),
    ensures
        !semver_parses(current@) ==> res is None,
        semver_parses(current@) ==> {
            let candidate = if semver_is_pre(current@) { versions.prerelease } else { versions.release };
            match candidate {
                Some(c) => if semver_greater(c@, current@) {
                    res matches Some(r) && r@ == c@
                } else {
                    res is None
                },
                None => res is None,
            }
        },
{
    if !version_parses(current) {
        return None;
    }
    let candidate = if version_is_pre(current) { &versions.prerelease } else { &versions.release };
    match candidate {
        Some(c) => if version_greater(c.as_str(), current) {
            Some(c.clone())
        } else {
            None
        },
        None => None,
    }
}

/// The update to announce to the running version `current`, from the versions that were
/// published.
pub fn announce_update(current: &str, published: &Vec<CrateVersion>) -> (res: Option<String>)
    ensures
        !semver_parses(current@) ==> res is None,
        semver_parses(current@) ==> {
            let candidate = scan_max(live_numbers(published@), semver_is_pre(current@));
            match candidate {
                Some(c) => if semver_greater(c, current@) {
                    res matches Some(r) && r@ == c
                } else {
                    res is None
                },
                None => res is None,
            }
        },
        res matches Some(r) ==> semver_greater(r@, current@) && semver_parses(r@),
{
    let versions = versions_from_response(published);
    update_to_announce(current, &versions)
}

/// The running version does not meet a project's requirement: both as they are displayed.
#[derive(Clone, Debug)]
pub struct VersionMismatch {
    pub required: String,
    pub actual: String,
}

impl VersionMismatch {
    /// The error message.
    pub fn to_string(&self) -> (res: String)
        ensures
            res@ == "Project requires a trunk version of '"@ + self.required@
                + "', the current trunk version is: '"@ + self.actual@ + "'"@,
    {
        let mut s = to_owned_string("Project requires a trunk version of '");
        s.append(self.required.as_str());
        s.append("', the current trunk version is: '");
        s.append(self.actual.as_str());
        s.append("'");
        s
    }
}

/// Whether the running version `actual` meets the requirement `required`: any version, even a
/// pre-release, meets `*`; otherwise the requirement must match it.
pub fn enforce_version_with(required: &str, actual: &str) -> (res: Result<(), VersionMismatch>)
    requires
        semver_req_parses(required@),
        semver_parses(actual@),
    ensures
        (res is Ok) == (semver_req_is_star(required@) || semver_req_matches(required@, actual@)),
        res matches Err(e) ==> e.required@ == semver_req_text(required@) && e.actual@ == semver_version_text(actual@),
{
    if req_is_star(required) {
        return Ok(());
    }
    if !req_matches(required, actual) {
        return Err(VersionMismatch { required: req_display(required), actual: version_display(actual) });
    }
    Ok(())
}

/// `enforce_version_with` on texts that may not parse: `None` when one of them does not.
pub fn check_version_texts(required: &str, actual: &str) -> (res: Option<Result<(), VersionMismatch>>)
    ensures
        (semver_req_parses(required@) && semver_parses(actual@)) == (res is Some),
        res matches Some(r) ==> ((r is Ok) == (semver_req_is_star(required@) || semver_req_matches(required@, actual@))),
{
    if !req_parses(required) || !version_parses(actual) {
        return None;
    }
    Some(enforce_version_with(required, actual))
}


/// What the scan picks is one of the versions scanned, parses, and is no pre-release when
/// pre-releases are not taken.
proof fn lemma_scan_max_member(vs: Seq<Seq<char>>, pre_too: bool)
    ensures
        scan_max(vs, pre_too) matches Some(b) ==> vs.contains(b) && semver_parses(b) && (!pre_too
            ==> !semver_is_pre(b)),
    decreases vs.len(),
{
    if vs.len() > 0 {
        lemma_scan_max_member(vs.drop_last(), pre_too);
        if let Some(b) = scan_max(vs, pre_too) {
            if scan_max(vs.drop_last(), pre_too) == Some(b) {
                let i = choose|i: int| 0 <= i < vs.drop_last().len() && vs.drop_last()[i] == b;
                assert(vs[i] == b);
            } else {
                assert(vs[vs.len() - 1] == b);
            }
        }
    }
}

/// Each number that was not yanked is among the published versions.
proof fn lemma_live_numbers_published(vs: Seq<CrateVersion>, v: Seq<char>)
    requires
        live_numbers(vs).contains(v),
    ensures
        exists|i: int| 0 <= i < vs.len() && !vs[i].yanked && (#[trigger] vs[i]).num@ == v,
    decreases vs.len(),
{
    let l = live_numbers(vs);
    if vs.last().yanked || v != vs.last().num@ {
        if !vs.last().yanked {
            let i = choose|i: int| 0 <= i < l.len() && l[i] == v;
            assert(l == live_numbers(vs.drop_last()).push(vs.last().num@));
            assert(live_numbers(vs.drop_last())[i] == v);
        }
        lemma_live_numbers_published(vs.drop_last(), v);
        let j = choose|j: int| 0 <= j < vs.drop_last().len() && !vs.drop_last()[j].yanked && (#[trigger] vs.drop_last()[j]).num@ == v;
        assert(vs[j] == vs.drop_last()[j]);
    } else {
        assert(vs[vs.len() - 1] == vs.last());
    }
}

/// The announced versions are published ones that were not yanked and that parse; the most
/// recent release has no pre-release part.
pub proof fn law_selected_versions_are_published(vs: Seq<CrateVersion>)
    ensures
        scan_max(live_numbers(vs), false) matches Some(r) ==> !semver_is_pre(r) && semver_parses(r)
            && exists|i: int| 0 <= i < vs.len() && !vs[i].yanked && (#[trigger] vs[i]).num@ == r,
        scan_max(live_numbers(vs), true) matches Some(r) ==> semver_parses(r) && exists|i: int|
            0 <= i < vs.len() && !vs[i].yanked && (#[trigger] vs[i]).num@ == r,
{
    lemma_scan_max_member(live_numbers(vs), false);
    lemma_scan_max_member(live_numbers(vs), true);
    if let Some(r) = scan_max(live_numbers(vs), false) {
        lemma_live_numbers_published(vs, r);
    }
    if let Some(r) = scan_max(live_numbers(vs), true) {
        lemma_live_numbers_published(vs, r);
    }
}


/// What reading the state of the last update check gave.
#[derive(Clone, Debug)]
pub enum StateRead {
    /// There is no home directory to keep the state in.
    NoHome,
    /// The state file does not exist.
    NotFound,
    /// The state file could not be read.
    Unreadable,
    /// The state file holds no state.
    Malformed,
    /// The state: how long ago the last check was, in nanoseconds, and what it found.
    Read { elapsed_nanos: i128, versions: Versions },
}

/// Whether an update check is due.
#[derive(Clone, Debug)]
pub enum CheckState {
    /// No check is due; these are the versions known.
    NotNeeded(Versions),
    /// A check is due.
    Needed,
}

/// The period between two update checks: one day, in nanoseconds.
pub open spec fn check_period_nanos() -> int {
    86_400_000_000_000
}

/// Whether an update check is due: none without a home directory or when the state cannot be
/// read (nothing known then); one when there is no state yet or it is malformed; otherwise one
/// when the last check is more than a day ago.
pub fn need_check(state: StateRead) -> (res: CheckState)
    ensures
        match state {
            StateRead::NoHome | StateRead::Unreadable => res matches CheckState::NotNeeded(v)
                && v.release is None && v.prerelease is None,
            StateRead::NotFound | StateRead::Malformed => res is Needed,
            StateRead::Read { elapsed_nanos, versions } => if elapsed_nanos > check_period_nanos() {
                res is Needed
            } else {
                res matches CheckState::NotNeeded(v) && v == versions
            },
        },
{
    match state {
        StateRead::NoHome | StateRead::Unreadable => CheckState::NotNeeded(Versions { release: None, prerelease: None }),
        StateRead::NotFound | StateRead::Malformed => CheckState::Needed,
        StateRead::Read { elapsed_nanos, versions } => {
            if elapsed_nanos > 86_400_000_000_000i128 {
                CheckState::Needed
            } else {
                CheckState::NotNeeded(versions)
            }
        },
    }
}

} // verus!
