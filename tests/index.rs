use anime_game_core::index::{get_downloaded, get_groups, Group, IndexError, Version};

const MANIFEST: &str = r#"[{"name":"dxvk","title":"DXVK","versions":[{"name":"vanilla","version":"2.3","uri":"https://x/a.tar"},{"name":"gplasync","version":"2.3.1","uri":"https://x/b.tar"}]}]"#;

#[test]
fn find_version_by_name_or_tag() {
    let by_name = Version::find_in(get_groups(MANIFEST), "vanilla").unwrap();
    assert_eq!(by_name.name, "vanilla");
    assert_eq!(by_name.uri, "https://x/a.tar");
    let by_tag = Version::find_in(get_groups(MANIFEST), "2.3").unwrap();
    assert_eq!(by_tag.name, "vanilla");
    assert!(Version::find_in(get_groups(MANIFEST), "missing").is_none());
}

#[test]
fn latest_is_first_version_of_first_group() {
    let v = Version::latest(get_groups(MANIFEST)).unwrap();
    assert_eq!(v.name, "vanilla");
    assert_eq!(v.version, "2.3");
}

#[test]
fn latest_of_empty_index_fails() {
    assert_eq!(Version::latest(get_groups("[]")).unwrap_err(), IndexError::IndexEmpty);
    assert_eq!(Version::latest(Vec::new()).unwrap_err(), IndexError::IndexEmpty);
}

#[test]
fn find_group_by_version_name() {
    let g = Group::find_in(get_groups(MANIFEST), "gplasync").unwrap();
    assert_eq!(g.name, "dxvk");
    let g = Group::find_in(get_groups(MANIFEST), "dxvk").unwrap();
    assert_eq!(g.title, "DXVK");
    assert!(Group::find_in(get_groups(MANIFEST), "2.3.1").is_none());
}

#[test]
fn version_finds_its_group() {
    let v = Version::find_in(get_groups(MANIFEST), "2.3.1").unwrap();
    let g = v.find_group(get_groups(MANIFEST)).unwrap();
    assert_eq!(g.name, "dxvk");
}

#[test]
fn malformed_entries_are_dropped() {
    let text = r#"[{"name":"a","title":"A","versions":[{"name":"x","version":"1"}]},
        {"title":"no name","versions":[{"name":"y","version":"1","uri":"u"}]},
        {"name":"b","title":"B","versions":[{"name":"z","version":"2","uri":"u2"},{"version":"3"}]}]"#;
    let groups = get_groups(text);
    assert_eq!(groups.len(), 1);
    assert_eq!(groups[0].name, "b");
    assert_eq!(groups[0].versions.len(), 1);
    assert_eq!(groups[0].versions[0].name, "z");
    assert!(get_groups("not json").is_empty());
}

#[test]
fn features_keep_env_values() {
    let text = r#"[{"name":"g","title":"G","features":{"env":{"A":"%prefix%/x","B":1}},"versions":[{"name":"v","version":"1","uri":"u","features":{"env":{"C":true}}}]}]"#;
    let groups = get_groups(text);
    let env = &groups[0].features.env;
    assert!(env.contains(&("A".to_string(), "%prefix%/x".to_string())));
    assert!(env.contains(&("B".to_string(), "1".to_string())));
    let v = &groups[0].versions[0];
    assert_eq!(v.features.as_ref().unwrap().env, vec![("C".to_string(), "true".to_string())]);
}

#[test]
fn downloaded_versions_are_kept() {
    let groups = get_groups(MANIFEST);
    let present = vec!["gplasync".to_string(), "other".to_string()];
    assert!(!groups[0].versions[0].is_downloaded_in(&present));
    assert!(groups[0].versions[1].is_downloaded_in(&present));
    let d = get_downloaded(&groups, &present);
    assert_eq!(d.len(), 1);
    assert_eq!(d[0].versions.len(), 1);
    assert_eq!(d[0].versions[0].name, "gplasync");
    assert!(get_downloaded(&groups, &Vec::new()).is_empty());
}
