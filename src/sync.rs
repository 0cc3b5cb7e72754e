//! The package sync engine: keeps one package kind's install directory at
//! the version of the latest remote release.
//!
//! A sync is a state machine. Each step takes the outcome of the previous
//! action and names the next one; the caller performs it and reports back.
//! The version stamp is written only after a successful extraction, so an
//! interrupted sync leaves no stamp and the next one starts over in full.

use vstd::prelude::*;
use crate::json::{Json, json_get, json_text, parse_json, parsed_json};
use crate::text::{has_prefix, has_suffix, is_prefix, is_suffix, join_path, path_join};

verus! {

/// Why a sync failed.
#[derive(Debug, Clone, Copy, PartialEq, Eq, Structural)]
pub enum SyncError {
    /// The feed names no tag, or no asset that fits the package kind.
    ReleaseNotFound,
    /// The feed or the archive could not be fetched.
    DownloadFailed,
    /// The archive could not be unpacked.
    ExtractFailed,
    /// A file-system step other than extraction failed.
    FilesystemError,
    /// An outcome was reported that the current step does not expect.
    OutOfOrder,
}

/// The version stamp's text for `version`, as serde_json writes it.
pub uninterp spec fn stamp_json_text(version: Seq<char>) -> Seq<char>;

/// Relies on serde_json::to_string_pretty: the pretty text of the object
/// `{"version": version}`; the result depends on `version` alone.
#[verifier::external_body]
pub fn stamp_text(version: &str) -> (r: String)
    ensures
        r@ == stamp_json_text(version@),
{
    let mut m = serde_json::Map::new();
    m.insert("version".to_string(), serde_json::Value::String(version.to_string()));
    serde_json::to_string_pretty(&serde_json::Value::Object(m)).unwrap_or_default()
}

/// The version that a stamp's text records.
pub open spec fn stamp_version_of(text: Seq<char>) -> Option<Seq<char>> {
    match parsed_json(text) {
        Some(j) => json_text(json_get(j, "version"@)),
        None => None,
    }
}

/// Reads the version that a stamp's text records: its `version` member.
pub fn stamp_version(text: &str) -> (r: Option<String>)
    ensures
        match r {
            Some(v) => stamp_version_of(text@) == Some(v@),
            None => stamp_version_of(text@) is None,
        },
{
    match parse_json(text) {
        Some(j) => match j.get("version") {
            Some(v) => match v.as_text() {
                Some(s) => Some(s.clone()),
                None => None,
            },
            None => None,
        },
        None => None,
    }
}

/// An asset fits the package kind: its name starts with `prefix` and ends
/// with `.zip`.
pub open spec fn asset_fits(a: Json, prefix: Seq<char>) -> bool {
    match json_text(json_get(a, "name"@)) {
        Some(n) => is_prefix(prefix, n) && is_suffix(".zip"@, n),
        None => false,
    }
}

/// Index of the first asset from `i` on that fits.
pub open spec fn asset_from(s: Seq<Json>, prefix: Seq<char>, i: int) -> Option<int>
    decreases s.len() - i,
{
    if i < 0 || i >= s.len() {
        None
    } else if asset_fits(s[i], prefix) {
        Some(i)
    } else {
        asset_from(s, prefix, i + 1)
    }
}

/// The release that a feed describes: its tag and the download location of
/// its first fitting asset.
pub open spec fn release_of(feed: Json, prefix: Seq<char>) -> Option<(Seq<char>, Seq<char>)> {
    match (json_text(json_get(feed, "tag_name"@)), json_get(feed, "assets"@)) {
        (Some(t), Some(Json::Array(a))) => match asset_from(a@, prefix, 0) {
            Some(i) => match json_text(json_get(a@[i], "browser_download_url"@)) {
                Some(u) => Some((t, u)),
                None => None,
            },
            None => None,
        },
        _ => None,
    }
}

fn asset_fits_exec(a: &Json, prefix: &str) -> (r: bool)
    ensures
        r == asset_fits(*a, prefix@),
{
    match a.get("name") {
        Some(Json::Str(n)) => has_prefix(n.as_str(), prefix) && has_suffix(n.as_str(), ".zip"),
        _ => false,
    }
}

/// Picks the release of a feed: its tag and the download location of the
/// first asset whose name starts with `prefix` and ends with `.zip`.
pub fn select_release(feed: &Json, prefix: &str) -> (r: Result<(String, String), SyncError>)
    ensures
        match r {
            Ok((t, u)) => release_of(*feed, prefix@) == Some((t@, u@)),
            Err(e) => release_of(*feed, prefix@) is None && e == SyncError::ReleaseNotFound,
        },
{
    let tag = match feed.get("tag_name") {
        Some(Json::Str(t)) => t,
        _ => return Err(SyncError::ReleaseNotFound),
    };
    let assets = match feed.get("assets") {
        Some(Json::Array(a)) => a,
        _ => return Err(SyncError::ReleaseNotFound),
    };
    let mut i: usize = 0;
    while i < assets.len()
        invariant
            i <= assets@.len(),
            json_get(*feed, "tag_name"@) == Some(Json::Str(*tag)),
            json_get(*feed, "assets"@) == Some(Json::Array(*assets)),
            asset_from(assets@, prefix@, 0) == asset_from(assets@, prefix@, i as int),
        decreases assets.len() - i,
    {
        if asset_fits_exec(&assets[i], prefix) {
            assert(asset_from(assets@, prefix@, i as int) == Some(i as int));
            return match assets[i].get("browser_download_url") {
                Some(Json::Str(u)) => Ok((tag.clone(), u.clone())),
                _ => Err(SyncError::ReleaseNotFound),
            };
        }
        i = i + 1;
    }
    Err(SyncError::ReleaseNotFound)
}


/// One package kind: where its release feed is, which assets fit it, and
/// where it is installed and cached.
#[derive(Debug, Clone)]
pub struct PackageKind {
    pub feed_url: String,
    pub asset_prefix: String,
    pub install_dir: String,
    pub cache_dir: String,
    pub archive_stem: String,
}

pub ghost struct KindView {
    pub feed_url: Seq<char>,
    pub asset_prefix: Seq<char>,
    pub install_dir: Seq<char>,
    pub cache_dir: Seq<char>,
    pub archive_stem: Seq<char>,
}

impl View for PackageKind {
    type V = KindView;

    open spec fn view(&self) -> KindView {
        KindView {
            feed_url: self.feed_url@,
            asset_prefix: self.asset_prefix@,
            install_dir: self.install_dir@,
            cache_dir: self.cache_dir@,
            archive_stem: self.archive_stem@,
        }
    }
}

/// Where the archive of release `tag` is cached: `<stem>-<tag>.zip`.
pub open spec fn archive_path_of(k: KindView, tag: Seq<char>) -> Seq<char> {
    path_join(k.cache_dir, k.archive_stem + "-"@ + tag + ".zip"@)
}

/// Where the version stamp lies.
pub open spec fn stamp_path_of(k: KindView) -> Seq<char> {
    path_join(k.install_dir, "version.json"@)
}

/// Where a sync stands.
#[derive(Debug)]
pub enum SyncState {
    ReadingStamp,
    FetchingFeed { installed: Option<String> },
    Downloading { tag: String },
    RemovingOld { tag: String },
    Extracting { tag: String },
    Stamping { tag: String },
    DroppingArchive { tag: String },
    /// Done: the install directory holds release `tag`.
    Current { tag: String },
    /// Done: the sync failed.
    Failed { error: SyncError },
}

pub ghost enum StateView {
    ReadingStamp,
    FetchingFeed { installed: Option<Seq<char>> },
    Downloading { tag: Seq<char> },
    RemovingOld { tag: Seq<char> },
    Extracting { tag: Seq<char> },
    Stamping { tag: Seq<char> },
    DroppingArchive { tag: Seq<char> },
    Current { tag: Seq<char> },
    Failed { error: SyncError },
}

/// The outcome of the action last asked for.
#[derive(Debug)]
pub enum SyncEvent {
    /// The version that the stamp records; `None` where there is no stamp
    /// or it cannot be read.
    Stamp(Option<String>),
    /// The feed's text; `None` where it could not be fetched.
    Feed(Option<String>),
    /// The action succeeded.
    Done,
    /// The action failed.
    Failed,
}

pub ghost enum EventView {
    Stamp(Option<Seq<char>>),
    Feed(Option<Seq<char>>),
    Done,
    Failed,
}

/// What the caller is asked to do next.
#[derive(Debug)]
pub enum SyncAction {
    /// Read the stamp at `path` and report the version it records.
    ReadStamp { path: String },
    /// Fetch the release feed and report its text.
    FetchFeed { url: String },
    /// Download `url` into the file `to`, creating its directory.
    Download { url: String, to: String },
    /// Remove the directory `path` in full, where present.
    RemoveDir { path: String },
    /// Unpack the archive into the directory `into`.
    Extract { archive: String, into: String },
    /// Write `text`, the stamp of `version`, to `path`.
    WriteStamp { path: String, version: String, text: String },
    /// Remove the file `path`.
    RemoveFile { path: String },
    /// Stop: release `tag` is installed.
    Finish { tag: String },
    /// Stop: the sync failed.
    Abort { error: SyncError },
}

pub ghost enum ActionView {
    ReadStamp { path: Seq<char> },
    FetchFeed { url: Seq<char> },
    Download { url: Seq<char>, to: Seq<char> },
    RemoveDir { path: Seq<char> },
    Extract { archive: Seq<char>, into: Seq<char> },
    WriteStamp { path: Seq<char>, version: Seq<char>, text: Seq<char> },
    RemoveFile { path: Seq<char> },
    Finish { tag: Seq<char> },
    Abort { error: SyncError },
}

pub open spec fn opt_view(o: Option<String>) -> Option<Seq<char>> {
    match o {
        Some(s) => Some(s@),
        None => None,
    }
}

impl View for SyncState {
    type V = StateView;

    open spec fn view(&self) -> StateView {
        match self {
            SyncState::ReadingStamp => StateView::ReadingStamp,
            SyncState::FetchingFeed { installed } => StateView::FetchingFeed { installed: opt_view(*installed) },
            SyncState::Downloading { tag } => StateView::Downloading { tag: tag@ },
            SyncState::RemovingOld { tag } => StateView::RemovingOld { tag: tag@ },
            SyncState::Extracting { tag } => StateView::Extracting { tag: tag@ },
            SyncState::Stamping { tag } => StateView::Stamping { tag: tag@ },
            SyncState::DroppingArchive { tag } => StateView::DroppingArchive { tag: tag@ },
            SyncState::Current { tag } => StateView::Current { tag: tag@ },
            SyncState::Failed { error } => StateView::Failed { error: *error },
        }
    }
}

impl View for SyncEvent {
    type V = EventView;

    open spec fn view(&self) -> EventView {
        match self {
            SyncEvent::Stamp(v) => EventView::Stamp(opt_view(*v)),
            SyncEvent::Feed(b) => EventView::Feed(opt_view(*b)),
            SyncEvent::Done => EventView::Done,
            SyncEvent::Failed => EventView::Failed,
        }
    }
}

impl View for SyncAction {
    type V = ActionView;

    open spec fn view(&self) -> ActionView {
        match self {
            SyncAction::ReadStamp { path } => ActionView::ReadStamp { path: path@ },
            SyncAction::FetchFeed { url } => ActionView::FetchFeed { url: url@ },
            SyncAction::Download { url, to } => ActionView::Download { url: url@, to: to@ },
            SyncAction::RemoveDir { path } => ActionView::RemoveDir { path: path@ },
            SyncAction::Extract { archive, into } => ActionView::Extract { archive: archive@, into: into@ },
            SyncAction::WriteStamp { path, version, text } => ActionView::WriteStamp { path: path@, version: version@, text: text@ },
            SyncAction::RemoveFile { path } => ActionView::RemoveFile { path: path@ },
            SyncAction::Finish { tag } => ActionView::Finish { tag: tag@ },
            SyncAction::Abort { error } => ActionView::Abort { error: *error },
        }
    }
}

pub open spec fn fail(e: SyncError) -> (StateView, ActionView) {
    (StateView::Failed { error: e }, ActionView::Abort { error: e })
}

/// The step from state `s` on outcome `e`: the next state and action.
pub open spec fn next(k: KindView, s: StateView, e: EventView) -> (StateView, ActionView) {
    match (s, e) {
        (StateView::ReadingStamp, EventView::Stamp(v)) =>
            (StateView::FetchingFeed { installed: v }, ActionView::FetchFeed { url: k.feed_url }),
        (StateView::FetchingFeed { installed }, EventView::Feed(Some(body))) => match parsed_json(body) {
            Some(j) => match release_of(j, k.asset_prefix) {
                Some((t, u)) => if installed == Some(t) {
                    (StateView::Current { tag: t }, ActionView::Finish { tag: t })
                } else {
                    (StateView::Downloading { tag: t }, ActionView::Download { url: u, to: archive_path_of(k, t) })
                },
                None => fail(SyncError::ReleaseNotFound),
            },
            None => fail(SyncError::ReleaseNotFound),
        },
        (StateView::FetchingFeed { .. }, EventView::Feed(None)) => fail(SyncError::DownloadFailed),
        (StateView::Downloading { tag }, EventView::Done) =>
            (StateView::RemovingOld { tag }, ActionView::RemoveDir { path: k.install_dir }),
        (StateView::Downloading { .. }, EventView::Failed) => fail(SyncError::DownloadFailed),
        (StateView::RemovingOld { tag }, EventView::Done) =>
            (StateView::Extracting { tag }, ActionView::Extract { archive: archive_path_of(k, tag), into: k.install_dir }),
        (StateView::RemovingOld { .. }, EventView::Failed) => fail(SyncError::FilesystemError),
        (StateView::Extracting { tag }, EventView::Done) =>
            (StateView::Stamping { tag }, ActionView::WriteStamp { path: stamp_path_of(k), version: tag, text: stamp_json_text(tag) }),
        (StateView::Extracting { .. }, EventView::Failed) => fail(SyncError::ExtractFailed),
        (StateView::Stamping { tag }, EventView::Done) =>
            (StateView::DroppingArchive { tag }, ActionView::RemoveFile { path: archive_path_of(k, tag) }),
        (StateView::Stamping { .. }, EventView::Failed) => fail(SyncError::FilesystemError),
        (StateView::DroppingArchive { tag }, EventView::Done) =>
            (StateView::Current { tag }, ActionView::Finish { tag }),
        (StateView::DroppingArchive { .. }, EventView::Failed) => fail(SyncError::FilesystemError),
        (StateView::Current { tag }, _) => (StateView::Current { tag }, ActionView::Finish { tag }),
        (StateView::Failed { error }, _) => fail(error),
        _ => fail(SyncError::OutOfOrder),
    }
}

/// Where the archive of release `tag` is cached.
pub fn archive_path(kind: &PackageKind, tag: &str) -> (r: String)
    ensures
        r@ == archive_path_of(kind@, tag@),
{
    let mut name = kind.archive_stem.clone();
    name.append("-");
    name.append(tag);
    name.append(".zip");
    proof {
        reveal_strlit("-");
        reveal_strlit(".zip");
    }
    join_path(kind.cache_dir.as_str(), name.as_str())
}

/// Where the version stamp lies.
pub fn stamp_path(kind: &PackageKind) -> (r: String)
    ensures
        r@ == stamp_path_of(kind@),
{
    join_path(kind.install_dir.as_str(), "version.json")
}

/// The first step of a sync: read the stamp.
pub fn start(kind: &PackageKind) -> (r: (SyncState, SyncAction))
    ensures
        r.0@ == StateView::ReadingStamp,
        r.1@ == (ActionView::ReadStamp { path: stamp_path_of(kind@) }),
{
    (SyncState::ReadingStamp, SyncAction::ReadStamp { path: stamp_path(kind) })
}

fn failure(e: SyncError) -> (r: (SyncState, SyncAction))
    ensures
        (r.0@, r.1@) == fail(e),
{
    (SyncState::Failed { error: e }, SyncAction::Abort { error: e })
}

fn same_opt(a: &Option<String>, b: &String) -> (r: bool)
    ensures
        r == (opt_view(*a) == Some(b@)),
{
    match a {
        Some(x) => crate::text::same_text(x.as_str(), b.as_str()),
        None => false,
    }
}

/// Takes one step of a sync: from the state and the outcome of the last
/// action to the next state and action.
pub fn step(kind: &PackageKind, state: SyncState, event: SyncEvent) -> (r: (SyncState, SyncAction))
    ensures
        (r.0@, r.1@) == next(kind@, state@, event@),
{
    match (state, event) {
        (SyncState::ReadingStamp, SyncEvent::Stamp(v)) =>
            (SyncState::FetchingFeed { installed: v }, SyncAction::FetchFeed { url: kind.feed_url.clone() }),
        (SyncState::FetchingFeed { installed }, SyncEvent::Feed(Some(body))) => match parse_json(body.as_str()) {
            Some(j) => match select_release(&j, kind.asset_prefix.as_str()) {
                Ok((t, u)) => if same_opt(&installed, &t) {
                    let t2 = t.clone();
                    (SyncState::Current { tag: t }, SyncAction::Finish { tag: t2 })
                } else {
                    let to = archive_path(kind, t.as_str());
                    (SyncState::Downloading { tag: t }, SyncAction::Download { url: u, to })
                },
                Err(_) => failure(SyncError::ReleaseNotFound),
            },
            None => failure(SyncError::ReleaseNotFound),
        },
        (SyncState::FetchingFeed { .. }, SyncEvent::Feed(None)) => failure(SyncError::DownloadFailed),
        (SyncState::Downloading { tag }, SyncEvent::Done) =>
            (SyncState::RemovingOld { tag }, SyncAction::RemoveDir { path: kind.install_dir.clone() }),
        (SyncState::Downloading { .. }, SyncEvent::Failed) => failure(SyncError::DownloadFailed),
        (SyncState::RemovingOld { tag }, SyncEvent::Done) => {
            let archive = archive_path(kind, tag.as_str());
            (SyncState::Extracting { tag }, SyncAction::Extract { archive, into: kind.install_dir.clone() })
        },
        (SyncState::RemovingOld { .. }, SyncEvent::Failed) => failure(SyncError::FilesystemError),
        (SyncState::Extracting { tag }, SyncEvent::Done) => {
            let text = stamp_text(tag.as_str());
            let version = tag.clone();
            (SyncState::Stamping { tag }, SyncAction::WriteStamp { path: stamp_path(kind), version, text })
        },
        (SyncState::Extracting { .. }, SyncEvent::Failed) => failure(SyncError::ExtractFailed),
        (SyncState::Stamping { tag }, SyncEvent::Done) => {
            let path = archive_path(kind, tag.as_str());
            (SyncState::DroppingArchive { tag }, SyncAction::RemoveFile { path })
        },
        (SyncState::Stamping { .. }, SyncEvent::Failed) => failure(SyncError::FilesystemError),
        (SyncState::DroppingArchive { tag }, SyncEvent::Done) => {
            let t2 = tag.clone();
            (SyncState::Current { tag }, SyncAction::Finish { tag: t2 })
        },
        (SyncState::DroppingArchive { .. }, SyncEvent::Failed) => failure(SyncError::FilesystemError),
        (SyncState::Current { tag }, _) => {
            let t2 = tag.clone();
            (SyncState::Current { tag }, SyncAction::Finish { tag: t2 })
        },
        (SyncState::Failed { error }, _) => failure(error),
        _ => failure(SyncError::OutOfOrder),
    }
}


/// A sync has ended.
pub open spec fn is_terminal(s: StateView) -> bool {
    s is Current || s is Failed
}

/// Runs the machine from `s` on the outcomes `es`, until they run out or
/// the sync ends: the last state and the actions asked for.
pub open spec fn drive(k: KindView, s: StateView, es: Seq<EventView>) -> (StateView, Seq<ActionView>)
    decreases es.len(),
{
    if es.len() == 0 || is_terminal(s) {
        (s, seq![])
    } else {
        let (s1, a) = next(k, s, es[0]);
        let (s2, rest) = drive(k, s1, es.drop_first());
        (s2, seq![a] + rest)
    }
}

/// A sync in which the stamp records `stamp`, the feed reads `body`, and
/// every action succeeds.
pub open spec fn smooth_sync(k: KindView, stamp: Option<Seq<char>>, body: Seq<char>) -> (StateView, Seq<ActionView>) {
    drive(
        k,
        StateView::ReadingStamp,
        seq![EventView::Stamp(stamp), EventView::Feed(Some(body)), EventView::Done, EventView::Done, EventView::Done, EventView::Done, EventView::Done],
    )
}

/// The action changes something on disk.
pub open spec fn mutates(a: ActionView) -> bool {
    a is Download || a is RemoveDir || a is Extract || a is WriteStamp || a is RemoveFile
}

/// The version that the stamp records after `acts`, where it recorded
/// `stamp` before.
pub open spec fn stamp_after(stamp: Option<Seq<char>>, acts: Seq<ActionView>) -> Option<Seq<char>>
    decreases acts.len(),
{
    if acts.len() == 0 {
        stamp
    } else {
        match acts.last() {
            ActionView::WriteStamp { version, .. } => Some(version),
            ActionView::RemoveDir { .. } => None,
            _ => stamp_after(stamp, acts.drop_last()),
        }
    }
}

/// The full cycle for release `(t, u)`: download, removal of the old
/// install, extraction, stamp, and removal of the archive.
pub open spec fn full_cycle(k: KindView, t: Seq<char>, u: Seq<char>) -> Seq<ActionView> {
    seq![
        ActionView::FetchFeed { url: k.feed_url },
        ActionView::Download { url: u, to: archive_path_of(k, t) },
        ActionView::RemoveDir { path: k.install_dir },
        ActionView::Extract { archive: archive_path_of(k, t), into: k.install_dir },
        ActionView::WriteStamp { path: stamp_path_of(k), version: t, text: stamp_json_text(t) },
        ActionView::RemoveFile { path: archive_path_of(k, t) },
        ActionView::Finish { tag: t },
    ]
}

/// Where the stamp does not record the feed's release (it is absent, as
/// after an interruption between the removal of the old install and the
/// stamp, or it names another release), a sync runs the full cycle and
/// ends with the stamp recording that release.
pub proof fn stale_sync_runs_full_cycle(k: KindView, stamp: Option<Seq<char>>, body: Seq<char>)
    requires
        parsed_json(body) is Some,
        release_of(parsed_json(body)->Some_0, k.asset_prefix) is Some,
        stamp != Some(release_of(parsed_json(body)->Some_0, k.asset_prefix)->Some_0.0),
    ensures
        ({
            let (t, u) = release_of(parsed_json(body)->Some_0, k.asset_prefix)->Some_0;
            &&& smooth_sync(k, stamp, body) == (StateView::Current { tag: t }, full_cycle(k, t, u))
            &&& stamp_after(stamp, full_cycle(k, t, u)) == Some(t)
        }),
{
    let (t, u) = release_of(parsed_json(body)->Some_0, k.asset_prefix)->Some_0;
    reveal_with_fuel(drive, 8);
    let acts = full_cycle(k, t, u);
    assert(acts.drop_last().last() is RemoveFile);
    assert(acts.drop_last().drop_last().last() is WriteStamp);
    assert(seq![ActionView::FetchFeed { url: k.feed_url }] + (seq![ActionView::Download { url: u, to: archive_path_of(k, t) }] + (seq![ActionView::RemoveDir { path: k.install_dir }] + (seq![ActionView::Extract { archive: archive_path_of(k, t), into: k.install_dir }] + (seq![ActionView::WriteStamp { path: stamp_path_of(k), version: t, text: stamp_json_text(t) }] + (seq![ActionView::RemoveFile { path: archive_path_of(k, t) }] + (seq![ActionView::Finish { tag: t }] + Seq::<ActionView>::empty())))))) =~= acts);
    reveal_with_fuel(stamp_after, 3);
}

/// A second sync against an unchanged feed, after one that installed its
/// release, downloads nothing and changes nothing on disk.
pub proof fn sync_is_idempotent(k: KindView, stamp: Option<Seq<char>>, body: Seq<char>)
    requires
        parsed_json(body) is Some,
        release_of(parsed_json(body)->Some_0, k.asset_prefix) is Some,
    ensures
        ({
            let t = release_of(parsed_json(body)->Some_0, k.asset_prefix)->Some_0.0;
            let first = smooth_sync(k, stamp, body);
            let second = smooth_sync(k, stamp_after(stamp, first.1), body);
            &&& first.0 == (StateView::Current { tag: t })
            &&& stamp_after(stamp, first.1) == Some(t)
            &&& second.0 == (StateView::Current { tag: t })
            &&& forall|i: int| 0 <= i < second.1.len() ==> !mutates(#[trigger] second.1[i])
        }),
{
    let (t, u) = release_of(parsed_json(body)->Some_0, k.asset_prefix)->Some_0;
    if stamp != Some(t) {
        stale_sync_runs_full_cycle(k, stamp, body);
    } else {
        reveal_with_fuel(drive, 3);
        let acts = seq![ActionView::FetchFeed { url: k.feed_url }, ActionView::Finish { tag: t }];
        assert(seq![ActionView::FetchFeed { url: k.feed_url }] + (seq![ActionView::Finish { tag: t }] + Seq::<ActionView>::empty()) =~= acts);
        reveal_with_fuel(stamp_after, 3);
        assert(acts.drop_last() =~= seq![ActionView::FetchFeed { url: k.feed_url }]);
        assert(acts.drop_last().drop_last() =~= Seq::<ActionView>::empty());
    }
    reveal_with_fuel(drive, 3);
    let acts = seq![ActionView::FetchFeed { url: k.feed_url }, ActionView::Finish { tag: t }];
    assert(seq![ActionView::FetchFeed { url: k.feed_url }] + (seq![ActionView::Finish { tag: t }] + Seq::<ActionView>::empty()) =~= acts);
}

} // verus!
