use anime_game_core::config::{Launcher, Mods};
use anime_game_core::json::parse_json;
use anime_game_core::steam::{get_shortcuts_path, get_users_with_shortcut, has_launcher_shortcut, is_launcher_shortcut, SteamUser};
use anime_game_core::text::{has_prefix, has_suffix, join_path, same_text};
use steam_shortcuts_util::{shortcuts_to_bytes, Shortcut};

fn list(name: &str, tags: Vec<&str>) -> Vec<u8> {
    let s = Shortcut::new("0", name, "\"/bin/x\"", "\"/bin\"", "", "", "");
    let s = Shortcut { tags, ..s };
    shortcuts_to_bytes(&vec![s])
}

#[test]
fn text_helpers() {
    assert!(same_text("ab", "ab"));
    assert!(!same_text("ab", "abc"));
    assert!(has_prefix("XXMI-PACKAGE-1.zip", "XXMI-PACKAGE"));
    assert!(!has_prefix("XX", "XXMI"));
    assert!(has_suffix("a.zip", ".zip"));
    assert!(!has_suffix("a.tar", ".zip"));
    assert_eq!(join_path("", "a"), "a");
    assert_eq!(join_path("/x/", "a"), "/x/a");
    assert_eq!(join_path("/x", "a"), "/x/a");
}

#[test]
fn mods_settings_from_json() {
    let m = Mods::from_json(&parse_json(r#"{"enabled":true,"mods_folder":"/mods"}"#).unwrap());
    assert!(m.enabled);
    assert_eq!(m.mods_folder, "/mods");
    let d = Mods::from_json(&parse_json(r#"{"enabled":"yes"}"#).unwrap());
    assert!(!d.enabled);
    assert_eq!(d.mods_folder, "");
}

#[test]
fn launcher_settings_from_json() {
    let defaults = Launcher::new(Some("/l".to_string()));
    let l = Launcher::from_json(&parse_json(r#"{"language":"de-de","temp":null}"#).unwrap(), defaults.clone());
    assert_eq!(l.language, "de-de");
    assert_eq!(l.temp, None);
    let l = Launcher::from_json(&parse_json(r#"{"temp":"/t"}"#).unwrap(), defaults.clone());
    assert_eq!(l.language, "en-us");
    assert_eq!(l.temp.as_deref(), Some("/t"));
    let l = Launcher::from_json(&parse_json(r#"{"temp":3}"#).unwrap(), defaults);
    assert_eq!(l.temp.as_deref(), Some("/l"));
}

#[test]
fn shortcuts_path_of_user() {
    let u = SteamUser { user_id: "1".to_string(), userdata_path: "/s/userdata/1".to_string() };
    assert_eq!(get_shortcuts_path(&u), "/s/userdata/1/config/shortcuts.vdf");
}

#[test]
fn recognises_launcher_shortcut() {
    assert!(is_launcher_shortcut("Zenless Zone Zero", &vec!["Installed".to_string(), "sleepy-launcher".to_string()]));
    assert!(!is_launcher_shortcut("Zenless Zone Zero", &vec!["Installed".to_string()]));
    assert!(has_launcher_shortcut(&list("Zenless Zone Zero", vec!["sleepy-launcher"])));
    assert!(!has_launcher_shortcut(&list("Other", vec!["sleepy-launcher"])));
    assert!(!has_launcher_shortcut(&[1, 2, 3]));
}

#[test]
fn users_with_shortcut_are_filtered() {
    let users = vec![
        SteamUser { user_id: "1".to_string(), userdata_path: "/a".to_string() },
        SteamUser { user_id: "2".to_string(), userdata_path: "/b".to_string() },
        SteamUser { user_id: "3".to_string(), userdata_path: "/c".to_string() },
    ];
    let lists = vec![None, Some(list("Zenless Zone Zero", vec!["sleepy-launcher"])), Some(list("Zenless Zone Zero", vec![]))];
    let r = get_users_with_shortcut(users, &lists);
    assert_eq!(r.len(), 1);
    assert_eq!(r[0].user_id, "2");
}
