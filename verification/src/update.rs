//! Noticing a new release: what a release answer means, and what the
//! polling loop does after each check.
//!
//! The loop checks at startup and again each time the shared interval has
//! passed, and stops once an update was found. A failed check is silent: the
//! next interval simply checks again.

use vstd::prelude::*;
use vstd::string::StrSliceExecFns;
use vstd::string::StringExecFns;
use crate::scroll_lock::{effective_interval, effective_interval_secs};
use crate::version::{chars_of, is_newer, is_newer_version};

verus! {

/// Owner of the repository whose releases are watched.
pub const OWNER: &'static str = "downing-labs";

/// Name of the repository whose releases are watched.
pub const REPO: &'static str = "scroll-lock-keeper";

/// The API address that answers with the latest release of the repository.
pub fn latest_release_api_url() -> (res: String)
    ensures
        res@ == "https://api.github.com/repos/"@ + OWNER@ + "/"@ + REPO@ + "/releases/latest"@,
{
    let mut url = String::from_str("https://api.github.com/repos/");
    url.append(OWNER);
    url.append("/");
    url.append(REPO);
    url.append("/releases/latest");
    url
}

/// The web page listing all releases of the repository.
pub open spec fn releases_page() -> Seq<char> {
    "https://github.com/"@ + OWNER@ + "/"@ + REPO@ + "/releases"@
}

/// A release that is newer than the running program.
#[derive(Clone, Debug)]
pub struct UpdateInfo {
    /// The release's version, without the leading `v` of its tag.
    pub version: String,
    /// The release's web page.
    pub url: String,
}

/// `s` without its leading `v` characters, as `trim_start_matches('v')`.
pub open spec fn strip_leading_v(s: Seq<char>) -> Seq<char>
    decreases s.len(),
{
    if s.len() > 0 && s[0] == 'v' {
        strip_leading_v(s.drop_first())
    } else {
        s
    }
}

/// The version of an update never starts with `v`.
pub proof fn lemma_stripped_has_no_leading_v(s: Seq<char>)
    ensures
        strip_leading_v(s).len() == 0 || strip_leading_v(s)[0] != 'v',
    decreases s.len(),
{
    if s.len() > 0 && s[0] == 'v' {
        lemma_stripped_has_no_leading_v(s.drop_first());
    }
}

proof fn lemma_strip_skips(s: Seq<char>, k: int)
    requires
        0 <= k <= s.len(),
        forall|j: int| 0 <= j < k ==> s[j] == 'v',
    ensures
        strip_leading_v(s) == strip_leading_v(s.skip(k)),
    decreases k,
{
    if k > 0 {
        lemma_strip_skips(s.drop_first(), k - 1);
        assert(s.drop_first().skip(k - 1) =~= s.skip(k));
    } else {
        assert(s.skip(0) =~= s);
    }
}

/// A release tag without its leading `v` characters.
pub fn trim_leading_v(tag: &str) -> (res: String)
    ensures
        res@ == strip_leading_v(tag@),
{
    let chars = chars_of(tag);
    let n = chars.len();
    let mut k: usize = 0;
    while k < n && chars[k] == 'v'
        invariant
            k <= n,
            n == tag@.len(),
            chars@ == tag@,
            forall|j: int| 0 <= j < k ==> tag@[j] == 'v',
        decreases n - k,
    {
        k += 1;
    }
    proof {
        lemma_strip_skips(tag@, k as int);
    }
    let rest = tag.substring_char(k, n);
    String::from_str(rest)
}

/// A tag that is `v` followed by the running version is no update, where
/// that version does not itself start with `v`.
pub proof fn lemma_own_tag_is_no_update(local_version: Seq<char>)
    requires
        local_version.len() == 0 || local_version[0] != 'v',
    ensures
        strip_leading_v(seq!['v'] + local_version) == local_version,
        !is_newer_version(strip_leading_v(seq!['v'] + local_version), local_version),
{
    let t = seq!['v'] + local_version;
    assert(t[0] == 'v');
    assert(t.drop_first() =~= local_version);
    assert(strip_leading_v(local_version) == local_version);
    assert(strip_leading_v(t) == strip_leading_v(t.drop_first()));
}

/// What a release answer means for the running version `local_version`:
/// the release is an update when its tag, without leading `v`s, is a newer
/// version.
pub fn update_from_release(tag_name: &str, html_url: String, local_version: &str) -> (res: Option<UpdateInfo>)
    ensures
        res is Some <==> is_newer_version(strip_leading_v(tag_name@), local_version@),
        res matches Some(info) ==> {
            &&& info.version@ == strip_leading_v(tag_name@)
            &&& info.url@ == html_url@
        },
{
    let remote = trim_leading_v(tag_name);
    if is_newer(remote.as_str(), local_version) {
        Some(UpdateInfo { version: remote, url: html_url })
    } else {
        None
    }
}

/// What happened last in the polling loop.
#[derive(Debug)]
pub enum PollEvent {
    /// The loop has just started.
    Started,
    /// A check finished, and found this update, if any.
    Checked(Option<UpdateInfo>),
    /// A wait finished.
    Waited,
}

/// What the polling loop does next.
#[derive(Debug)]
pub enum PollAction {
    /// Ask for the latest release.
    Check,
    /// Wait this many seconds.
    Wait(u64),
    /// Make the found update known, and stop polling.
    Publish(UpdateInfo),
}

/// The polling loop's next action after `event`, with the interval set to
/// `interval_secs`: check at once at startup and after each wait; after a
/// check, publish what was found and stop, or wait the interval (at least a
/// second) when nothing was found.
pub open spec fn poll_action(event: PollEvent, interval_secs: u64) -> PollAction {
    match event {
        PollEvent::Started => PollAction::Check,
        PollEvent::Waited => PollAction::Check,
        PollEvent::Checked(Some(info)) => PollAction::Publish(info),
        PollEvent::Checked(None) => PollAction::Wait(effective_interval(interval_secs)),
    }
}

/// The polling loop's decision after `event`.
pub fn poll_next(event: PollEvent, interval_secs: u64) -> (res: PollAction)
    ensures
        res == poll_action(event, interval_secs),
{
    match event {
        PollEvent::Started => PollAction::Check,
        PollEvent::Waited => PollAction::Check,
        PollEvent::Checked(found) => match found {
            Some(info) => PollAction::Publish(info),
            None => PollAction::Wait(effective_interval_secs(interval_secs)),
        },
    }
}

/// The page that the version button opens: the found update's page, or
/// the list of all releases while none was found.
pub fn release_page_url(update: &Option<UpdateInfo>) -> (res: String)
    ensures
        match update {
            Some(info) => res@ == info.url@,
            None => res@ == releases_page(),
        },
{
    match update {
        Some(info) => info.url.clone(),
        None => {
            let mut url = String::from_str("https://github.com/");
            url.append(OWNER);
            url.append("/");
            url.append(REPO);
            url.append("/releases");
            url
        },
    }
}

/// The loop checks at once when it starts, before any wait, and checks
/// again after every wait.
pub proof fn lemma_poll_checks_first(interval_secs: u64)
    ensures
        poll_action(PollEvent::Started, interval_secs) == PollAction::Check,
        poll_action(PollEvent::Waited, interval_secs) == PollAction::Check,
{
}

/// After a check, polling stops exactly when an update was found, and
/// otherwise waits the set interval, but never less than a second.
pub proof fn lemma_poll_stops_only_on_update(found: Option<UpdateInfo>, interval_secs: u64)
    ensures
        poll_action(PollEvent::Checked(found), interval_secs) is Publish <==> found is Some,
        found matches Some(info) ==> poll_action(PollEvent::Checked(found), interval_secs)
            == PollAction::Publish(info),
        poll_action(PollEvent::Checked(found), interval_secs) matches PollAction::Wait(secs) ==> {
            &&& secs >= 1
            &&& interval_secs >= 1 ==> secs == interval_secs
        },
{
}

/// After a check that found nothing, the loop always waits before the next
/// check: the set interval, or one second where the interval is zero.
pub proof fn lemma_no_update_waits_interval(interval_secs: u64)
    ensures
        poll_action(PollEvent::Checked(None), interval_secs) == PollAction::Wait(
            if interval_secs == 0 { 1 } else { interval_secs },
        ),
        poll_action(PollEvent::Checked(None), interval_secs) is Wait,
{
}

/// The polling loop run on the check results `found`, one per check, while
/// the interval is `interval_secs`: its actions, in order, until it stops
/// or runs out of results.
pub open spec fn poll_run(found: Seq<Option<UpdateInfo>>, interval_secs: u64) -> Seq<PollAction>
    decreases found.len(),
{
    if found.len() == 0 {
        seq![PollAction::Check]
    } else {
        match found[0] {
            Some(info) => seq![PollAction::Check, PollAction::Publish(info)],
            None => seq![PollAction::Check, PollAction::Wait(effective_interval(interval_secs))]
                + poll_run(found.drop_first(), interval_secs),
        }
    }
}

/// A run of the loop that follows `poll_action` from the start: the first
/// action is a check, every action after a wait is a check, and a publish
/// is the last action.
pub proof fn lemma_poll_run_shape(found: Seq<Option<UpdateInfo>>, interval_secs: u64)
    ensures
        poll_run(found, interval_secs).len() > 0,
        poll_run(found, interval_secs)[0] == poll_action(PollEvent::Started, interval_secs),
        forall|i: int| 0 <= i < poll_run(found, interval_secs).len() - 1
            && poll_run(found, interval_secs)[i] is Wait
            ==> #[trigger] poll_run(found, interval_secs)[i + 1]
                == poll_action(PollEvent::Waited, interval_secs),
        forall|i: int| 0 <= i < poll_run(found, interval_secs).len()
            && #[trigger] poll_run(found, interval_secs)[i] is Publish
            ==> i == poll_run(found, interval_secs).len() - 1,
    decreases found.len(),
{
    if found.len() > 0 && found[0] is None {
        let rest = found.drop_first();
        lemma_poll_run_shape(rest, interval_secs);
        let head = seq![PollAction::Check, PollAction::Wait(effective_interval(interval_secs))];
        let r = poll_run(found, interval_secs);
        assert(r == head + poll_run(rest, interval_secs));
        assert forall|i: int| 0 <= i < r.len() - 1 && r[i] is Wait
            implies #[trigger] r[i + 1] == poll_action(PollEvent::Waited, interval_secs) by {
            let rr = poll_run(rest, interval_secs);
            if i == 1 {
                assert(r[2] == rr[0]);
            } else if i >= 2 {
                let j = i - 2;
                assert(r[i] == rr[j]);
                assert(rr[j] is Wait);
                assert(rr[j + 1] == poll_action(PollEvent::Waited, interval_secs));
                assert(r[i + 1] == rr[j + 1]);
            }
        }
        assert forall|i: int| 0 <= i < r.len() && #[trigger] r[i] is Publish implies i == r.len() - 1 by {
            if i >= 2 {
                assert(r[i] == poll_run(rest, interval_secs)[i - 2]);
            }
        }
    }
}

} // verus!
