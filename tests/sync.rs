use anime_game_core::layout::{get_libs_dir, get_zzmi_base_dir, xxmi_libs_kind, zzmi_package_kind};
use anime_game_core::sync::{
    archive_path, select_release, stamp_text, stamp_version, start, step, SyncAction, SyncError,
    SyncEvent, SyncState,
};
use anime_game_core::json::parse_json;

const FEED: &str = r#"{"tag_name":"v1.2","assets":[{"name":"readme.txt","browser_download_url":"https://d/r"},{"name":"XXMI-PACKAGE-v1.2.zip","browser_download_url":"https://d/p.zip"}]}"#;

fn run(stamp: Option<&str>, feed: &str, fail_at: Option<usize>) -> (SyncState, Vec<SyncAction>) {
    let kind = xxmi_libs_kind("/home/u/launcher");
    let (mut state, first) = start(&kind);
    let mut actions = vec![first];
    let mut done_steps = 0;
    loop {
        let event = match actions.last().unwrap() {
            SyncAction::ReadStamp { .. } => SyncEvent::Stamp(stamp.map(|s| s.to_string())),
            SyncAction::FetchFeed { .. } => SyncEvent::Feed(Some(feed.to_string())),
            SyncAction::Finish { .. } | SyncAction::Abort { .. } => break,
            _ => {
                done_steps += 1;
                if Some(done_steps) == fail_at { SyncEvent::Failed } else { SyncEvent::Done }
            }
        };
        let (s, a) = step(&kind, state, event);
        state = s;
        actions.push(a);
    }
    (state, actions)
}

#[test]
fn release_without_matching_asset_is_not_found() {
    let feed = r#"{"tag_name":"v1.2","assets":[{"name":"XXMI-PACKAGE-v1.2.tar","browser_download_url":"https://d/p"}]}"#;
    let (state, actions) = run(Some("v1.1"), feed, None);
    assert!(matches!(state, SyncState::Failed { error: SyncError::ReleaseNotFound }));
    assert!(!actions.iter().any(|a| matches!(a, SyncAction::WriteStamp { .. } | SyncAction::RemoveDir { .. } | SyncAction::Download { .. })));
}

#[test]
fn current_stamp_downloads_nothing() {
    let (state, actions) = run(Some("v1.2"), FEED, None);
    assert!(matches!(state, SyncState::Current { ref tag } if tag == "v1.2"));
    assert_eq!(actions.len(), 3);
    assert!(!actions.iter().any(|a| matches!(a, SyncAction::Download { .. })));
}

#[test]
fn missing_stamp_runs_full_cycle() {
    let (state, actions) = run(None, FEED, None);
    assert!(matches!(state, SyncState::Current { ref tag } if tag == "v1.2"));
    assert_eq!(actions.len(), 8);
    match &actions[2] {
        SyncAction::Download { url, to } => {
            assert_eq!(url, "https://d/p.zip");
            assert_eq!(to, "/home/u/launcher/zzmi/cache/xxmi-libs-v1.2.zip");
        }
        other => panic!("unexpected {:?}", other),
    }
    assert!(matches!(&actions[3], SyncAction::RemoveDir { path } if path == "/home/u/launcher/zzmi/xxmi-libs"));
    assert!(matches!(&actions[4], SyncAction::Extract { .. }));
    match &actions[5] {
        SyncAction::WriteStamp { path, version, text } => {
            assert_eq!(path, "/home/u/launcher/zzmi/xxmi-libs/version.json");
            assert_eq!(version, "v1.2");
            assert_eq!(stamp_version(text).as_deref(), Some("v1.2"));
        }
        other => panic!("unexpected {:?}", other),
    }
    assert!(matches!(&actions[6], SyncAction::RemoveFile { .. }));
}

#[test]
fn second_sync_after_full_cycle_is_idle() {
    let (_, first) = run(Some("v1.0"), FEED, None);
    let written = first.iter().find_map(|a| match a {
        SyncAction::WriteStamp { text, .. } => stamp_version(text),
        _ => None,
    });
    assert_eq!(written.as_deref(), Some("v1.2"));
    let (state, second) = run(written.as_deref(), FEED, None);
    assert!(matches!(state, SyncState::Current { .. }));
    assert!(!second.iter().any(|a| matches!(a, SyncAction::Download { .. } | SyncAction::RemoveDir { .. } | SyncAction::Extract { .. } | SyncAction::WriteStamp { .. } | SyncAction::RemoveFile { .. })));
}

#[test]
fn failures_map_to_their_errors() {
    let (state, actions) = run(None, FEED, Some(1));
    assert!(matches!(state, SyncState::Failed { error: SyncError::DownloadFailed }));
    assert!(!actions.iter().any(|a| matches!(a, SyncAction::RemoveDir { .. })));
    let (state, _) = run(None, FEED, Some(3));
    assert!(matches!(state, SyncState::Failed { error: SyncError::ExtractFailed }));
    let (state, actions) = run(None, FEED, Some(2));
    assert!(matches!(state, SyncState::Failed { error: SyncError::FilesystemError }));
    assert!(!actions.iter().any(|a| matches!(a, SyncAction::WriteStamp { .. })));
}

#[test]
fn feed_fetch_failure_and_out_of_order() {
    let kind = zzmi_package_kind("/l");
    let (s, a) = step(&kind, SyncState::FetchingFeed { installed: None }, SyncEvent::Feed(None));
    assert!(matches!(s, SyncState::Failed { error: SyncError::DownloadFailed }));
    assert!(matches!(a, SyncAction::Abort { error: SyncError::DownloadFailed }));
    let (s, _) = step(&kind, SyncState::ReadingStamp, SyncEvent::Done);
    assert!(matches!(s, SyncState::Failed { error: SyncError::OutOfOrder }));
}

#[test]
fn select_release_picks_first_fitting_zip() {
    let feed = parse_json(FEED).unwrap();
    let (tag, url) = select_release(&feed, "XXMI-PACKAGE").unwrap();
    assert_eq!(tag, "v1.2");
    assert_eq!(url, "https://d/p.zip");
    assert_eq!(select_release(&feed, "ZZMI").unwrap_err(), SyncError::ReleaseNotFound);
    let no_tag = parse_json(r#"{"assets":[]}"#).unwrap();
    assert_eq!(select_release(&no_tag, "X").unwrap_err(), SyncError::ReleaseNotFound);
}

#[test]
fn stamp_text_round_trips() {
    let text = stamp_text("v9");
    assert!(text.contains("\"version\""));
    assert_eq!(stamp_version(&text).as_deref(), Some("v9"));
    assert_eq!(stamp_version("{}"), None);
    assert_eq!(stamp_version("garbage"), None);
}

#[test]
fn layout_paths() {
    assert_eq!(get_zzmi_base_dir("/l"), "/l/zzmi");
    assert_eq!(get_libs_dir("/l/"), "/l/zzmi/xxmi-libs");
    let kind = zzmi_package_kind("/l");
    assert_eq!(archive_path(&kind, "t1"), "/l/zzmi/cache/zzmi-package-t1.zip");
    assert_eq!(kind.asset_prefix, "ZZMI");
}
