//! Deciding whether a newer release can be installed, and pacing the
//! background update checker.
//!
//! Fetching the release list from GitHub, downloading and installing belong
//! to the caller; the release list reaches this module as plain values.

use vstd::prelude::*;

verus! {

/// Owner of the GitHub repository that publishes the releases.
pub const REPO_OWNER: &'static str = "YYx00xZZ";

/// Name of the GitHub repository that publishes the releases.
pub const REPO_NAME: &'static str = "binge-watch-me";

/// Seconds to wait after startup before the first check.
pub const FIRST_CHECK_DELAY_SECS: u64 = 10;

/// Seconds between two checks.
pub const CHECK_INTERVAL_SECS: u64 = 24 * 3600;

/// The processor architecture that a release asset is built for.
#[derive(Debug, Clone, Copy, PartialEq, Eq, Structural)]
pub enum Arch {
    Arm64,
    X86_64,
}

/// A newer release that can be installed.
#[derive(Debug, Clone)]
pub struct UpdateInfo {
    pub version: String,
    pub download_url: String,
}

/// What the update check reads of a published release: its version tag and
/// the names of its assets.
#[derive(Debug, Clone)]
pub struct ReleaseInfo {
    pub version: String,
    pub asset_names: Vec<String>,
}

/// The release asset that holds the app for `arch`.
pub open spec fn spec_asset_name(arch: Arch) -> Seq<char> {
    match arch {
        Arch::Arm64 => "BingeWatchMe-macos-arm64.zip"@,
        Arch::X86_64 => "BingeWatchMe-macos-x86.zip"@,
    }
}

/// The name of the release asset that holds the app for `arch`.
pub fn asset_name(arch: Arch) -> (name: &'static str)
    ensures
        name@ == spec_asset_name(arch),
{
    match arch {
        Arch::Arm64 => "BingeWatchMe-macos-arm64.zip",
        Arch::X86_64 => "BingeWatchMe-macos-x86.zip",
    }
}

/// A version tag without its leading `v`s.
pub open spec fn spec_strip_v(s: Seq<char>) -> Seq<char>
    decreases s.len(),
{
    if s.len() > 0 && s[0] == 'v' {
        spec_strip_v(s.drop_first())
    } else {
        s
    }
}

/// Stripping removes exactly the leading run of `v`s: the tag is some
/// number of `v`s followed by the result, and the result does not start
/// with `v`.
pub proof fn lemma_strip_v_removes_leading_vs(s: Seq<char>)
    ensures
        spec_strip_v(s).len() <= s.len(),
        s == Seq::new((s.len() - spec_strip_v(s).len()) as nat, |i: int| 'v') + spec_strip_v(s),
        spec_strip_v(s).len() > 0 ==> spec_strip_v(s)[0] != 'v',
    decreases s.len(),
{
    if s.len() > 0 && s[0] == 'v' {
        lemma_strip_v_removes_leading_vs(s.drop_first());
        let r = spec_strip_v(s.drop_first());
        let k = (s.drop_first().len() - r.len()) as nat;
        assert(s == seq!['v'] + s.drop_first());
        assert(Seq::new((k + 1) as nat, |i: int| 'v') =~= seq!['v'] + Seq::new(k, |i: int| 'v'));
        assert(s =~= Seq::new((k + 1) as nat, |i: int| 'v') + r);
    } else {
        assert(Seq::new(0, |i: int| 'v') + s =~= s);
    }
}

/// The browser download address of the asset of release `version`.
pub open spec fn spec_download_url(version: Seq<char>, asset: Seq<char>) -> Seq<char> {
    "https://github.com/"@ + REPO_OWNER@ + "/"@ + REPO_NAME@ + "/releases/download/v"@ + version
        + "/"@ + asset
}

/// The download address is the repository's release-download path for tag
/// `v<version>`, followed by the asset name.
pub proof fn lemma_download_url_layout(version: Seq<char>, asset: Seq<char>)
    ensures
        spec_download_url(version, asset)
            == "https://github.com/YYx00xZZ/binge-watch-me/releases/download/v"@ + version + "/"@ + asset,
{
    reveal_strlit("https://github.com/");
    reveal_strlit("YYx00xZZ");
    reveal_strlit("/");
    reveal_strlit("binge-watch-me");
    reveal_strlit("/releases/download/v");
    reveal_strlit("https://github.com/YYx00xZZ/binge-watch-me/releases/download/v");
    assert("https://github.com/"@ + REPO_OWNER@ + "/"@ + REPO_NAME@ + "/releases/download/v"@
        =~= "https://github.com/YYx00xZZ/binge-watch-me/releases/download/v"@);
}

/// Whether one of `names` is exactly `name`.
pub open spec fn has_name(names: Seq<String>, name: Seq<char>) -> bool {
    exists|i: int| 0 <= i < names.len() && #[trigger] names[i]@ == name
}

/// The offer made for a release whose version (without leading `v`s) is
/// `version`: an update exactly when it is newer than the running version
/// and it carries the asset for this architecture.
pub open spec fn spec_offer(is_newer: bool, version: Seq<char>, names: Seq<String>, arch: Arch) -> Option<(Seq<char>, Seq<char>)> {
    if is_newer && has_name(names, spec_asset_name(arch)) {
        Some((version, spec_download_url(version, spec_asset_name(arch))))
    } else {
        None
    }
}

/// The asset test looks at every position of the asset list: a name equal
/// to `name` anywhere in the list is found, and nothing is found unless some
/// position holds `name`.
pub proof fn lemma_asset_found_at_any_position(names: Seq<String>, name: Seq<char>, i: int)
    ensures
        0 <= i < names.len() && names[i]@ == name ==> has_name(names, name),
        has_name(names, name) ==> exists|j: int| 0 <= j < names.len() && #[trigger] names[j]@ == name,
{
}

/// A newer release is offered, with its version unchanged, whenever the
/// asset for this architecture appears anywhere in its asset list; no
/// release is offered when it is not newer or when no position holds that
/// asset.
pub proof fn lemma_offer_needs_newer_and_asset(version: Seq<char>, names: Seq<String>, arch: Arch, i: int, is_newer: bool)
    ensures
        0 <= i < names.len() && names[i]@ == spec_asset_name(arch) ==> (spec_offer(true, version, names, arch)
            matches Some(o) && o.0 == version),
        !is_newer ==> spec_offer(is_newer, version, names, arch) is None,
        (forall|j: int| 0 <= j < names.len() ==> #[trigger] names[j]@ != spec_asset_name(arch))
            ==> spec_offer(is_newer, version, names, arch) is None,
{
}

/// The view of an offer.
pub open spec fn offer_view(offer: Option<UpdateInfo>) -> Option<(Seq<char>, Seq<char>)> {
    match offer {
        Some(info) => Some((info.version@, info.download_url@)),
        None => None,
    }
}

/// `spec_strip_v` skips a prefix of `v`s and keeps the rest.
proof fn lemma_strip_v_skip(s: Seq<char>, i: int)
    requires
        0 <= i <= s.len(),
        forall|j: int| 0 <= j < i ==> s[j] == 'v',
    ensures
        spec_strip_v(s) == spec_strip_v(s.subrange(i, s.len() as int)),
    decreases i,
{
    if i > 0 {
        lemma_strip_v_skip(s.drop_first(), i - 1);
        assert(s.drop_first().subrange(i - 1, s.drop_first().len() as int) =~= s.subrange(i, s.len() as int));
    } else {
        assert(s.subrange(0, s.len() as int) =~= s);
    }
}

/// The version tag `tag` without its leading `v`s (GitHub tags usually
/// start with one; semantic versions do not).
pub fn strip_leading_v(tag: &str) -> (version: String)
    ensures
        version@ == spec_strip_v(tag@),
{
    let len = tag.unicode_len();
    let mut i: usize = 0;
    while i < len && tag.get_char(i) == 'v'
        invariant
            len == tag@.len(),
            i <= len,
            forall|j: int| 0 <= j < i ==> tag@[j] == 'v',
        decreases len - i,
    {
        i = i + 1;
    }
    proof {
        lemma_strip_v_skip(tag@, i as int);
    }
    String::from_str(tag.substring_char(i, len))
}

/// Whether one of `names` is exactly `name`.
fn contains_name(names: &Vec<String>, name: &str) -> (found: bool)
    ensures
        found == has_name(names@, name@),
{
    let wanted = String::from_str(name);
    let mut i: usize = 0;
    while i < names.len()
        invariant
            i <= names.len(),
            wanted@ == name@,
            forall|j: int| 0 <= j < i ==> names@[j]@ != name@,
        decreases names.len() - i,
    {
        if names[i] == wanted {
            assert(names@[i as int]@ == name@);
            return true;
        }
        i = i + 1;
    }
    false
}

/// The browser download address of `asset` in release `version`. It works
/// without the extra request header that the API address needs.
pub fn download_url(version: &str, asset: &str) -> (url: String)
    ensures
        url@ == spec_download_url(version@, asset@),
{
    let mut url = String::from_str("https://github.com/");
    url.append(REPO_OWNER);
    url.append("/");
    url.append(REPO_NAME);
    url.append("/releases/download/v");
    url.append(version);
    url.append("/");
    url.append(asset);
    url
}

/// The update to offer for a release whose version (without leading `v`s)
/// is `version`, given whether that version is newer than the running one:
/// an offer exactly when it is newer and the release carries the asset for
/// `arch`.
pub fn offer_update(is_newer: bool, version: String, asset_names: &Vec<String>, arch: Arch) -> (offer: Option<UpdateInfo>)
    ensures
        offer_view(offer) == spec_offer(is_newer, version@, asset_names@, arch),
{
    if !is_newer {
        return None;
    }
    let asset = asset_name(arch);
    if !contains_name(asset_names, asset) {
        return None;
    }
    let url = download_url(version.as_str(), asset);
    Some(UpdateInfo { version, download_url: url })
}

/// The error type of the `self_update` crate.
#[verifier::external_type_specification]
#[verifier::external_body]
pub struct ExSelfUpdateError(self_update::errors::Error);

/// Whether `other` is a newer semantic version than `current`: `None` when
/// either does not parse as a semantic version.
pub uninterp spec fn semver_newer(current: Seq<char>, other: Seq<char>) -> Option<bool>;

/// Calls `self_update::version::bump_is_greater`, which parses both strings
/// as semantic versions (`semver::Version::parse`) and reports whether
/// `other` orders after `current`. The contract claims that the outcome
/// depends on the two strings alone: `Ok(b)` exactly when
/// `semver_newer(current, other)` is `Some(b)`. Semantic-version ordering
/// itself is not stated.
#[verifier::external_body]
fn bump_is_greater(current: &str, other: &str) -> (res: Result<bool, self_update::errors::Error>)
    ensures
        res is Ok <==> semver_newer(current@, other@) is Some,
        res matches Ok(b) ==> semver_newer(current@, other@) == Some(b),
{
    self_update::version::bump_is_greater(current, other)
}

/// Whether the answer of the version comparison says "newer".
pub open spec fn says_newer(answer: Option<bool>) -> bool {
    answer == Some(true)
}

/// Check the release list, newest first, for an update to the version
/// `current_version` on `arch`.
///
/// Only the newest release is considered. Its tag loses its leading `v`s;
/// it is offered when it is a newer semantic version than the running one
/// and carries the asset for `arch`. No release, an unparsable version, an
/// older or equal version, or a missing asset all give `None`.
pub fn check_for_update(current_version: &str, releases: &Vec<ReleaseInfo>, arch: Arch) -> (offer: Option<UpdateInfo>)
    ensures
        releases.len() == 0 ==> offer is None,
        releases.len() > 0 ==> offer_view(offer) == spec_offer(
            says_newer(semver_newer(current_version@, spec_strip_v(releases@[0].version@))),
            spec_strip_v(releases@[0].version@),
            releases@[0].asset_names@,
            arch,
        ),
{
    if releases.len() == 0 {
        return None;
    }
    let latest = &releases[0];
    let version = strip_leading_v(latest.version.as_str());
    let is_newer = match bump_is_greater(current_version, version.as_str()) {
        Ok(true) => true,
        _ => false,
    };
    offer_update(is_newer, version, &latest.asset_names, arch)
}

/// What one run of the update check found.
pub enum CheckOutcome {
    /// A newer release can be installed.
    Found(UpdateInfo),
    /// No newer release.
    UpToDate,
    /// The check could not run to its end.
    Failed,
}

/// What the background checker does next.
pub enum CheckerStep {
    /// Hand the update to the tray and stop checking.
    Publish(UpdateInfo),
    /// Sleep for this many seconds, then check again.
    SleepThenCheck(u64),
}

/// After a check: an update is published and checking stops; otherwise the
/// next check comes a day later.
pub fn next_checker_step(outcome: CheckOutcome) -> (step: CheckerStep)
    ensures
        match outcome {
            CheckOutcome::Found(info) => step == CheckerStep::Publish(info),
            _ => step == CheckerStep::SleepThenCheck(CHECK_INTERVAL_SECS),
        },
{
    match outcome {
        CheckOutcome::Found(info) => CheckerStep::Publish(info),
        _ => CheckerStep::SleepThenCheck(CHECK_INTERVAL_SECS),
    }
}

} // verus!
