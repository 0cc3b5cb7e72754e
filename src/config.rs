//! Settings read from the launcher's configuration file.

use vstd::prelude::*;
use crate::json::{Json, json_get};

verus! {

/// Settings of the modding toolkit.
#[derive(Debug, Clone)]
pub struct Mods {
    /// Whether modding is enabled.
    pub enabled: bool,
    /// The folder of the user's mods; empty for the default one.
    pub mods_folder: String,
}

impl Default for Mods {
    fn default() -> (r: Self)
        ensures
            !r.enabled,
            r.mods_folder@ == Seq::<char>::empty(),
    {
        Mods { enabled: false, mods_folder: String::new() }
    }
}

impl Mods {
    /// Reads the settings: `enabled` where it is a boolean, `mods_folder`
    /// where it is a string, the default for each otherwise.
    pub fn from_json(value: &Json) -> (r: Self)
        ensures
            r.enabled == match json_get(*value, "enabled"@) {
                Some(Json::Bool(b)) => b,
                _ => false,
            },
            r.mods_folder@ == match json_get(*value, "mods_folder"@) {
                Some(Json::Str(s)) => s@,
                _ => Seq::<char>::empty(),
            },
    {
        let enabled = match value.get("enabled") {
            Some(Json::Bool(b)) => *b,
            _ => false,
        };
        let mods_folder = match value.get("mods_folder") {
            Some(Json::Str(s)) => s.clone(),
            _ => String::new(),
        };
        Mods { enabled, mods_folder }
    }
}

/// General launcher settings.
#[derive(Debug, Clone)]
pub struct Launcher {
    pub language: String,
    /// The folder for temporary files; `None` for none.
    pub temp: Option<String>,
}

impl Launcher {
    /// The defaults: language `en-us`, and the launcher's directory (where
    /// known) for temporary files.
    pub fn new(launcher_dir: Option<String>) -> (r: Self)
        ensures
            r.language@ == "en-us"@,
            r.temp == launcher_dir,
    {
        Launcher { language: "en-us".to_string(), temp: launcher_dir }
    }

    /// Reads the settings over `defaults`: `language` where it is a string;
    /// `temp` where it is a string, none where it is null.
    pub fn from_json(value: &Json, defaults: Launcher) -> (r: Self)
        ensures
            r.language@ == match json_get(*value, "language"@) {
                Some(Json::Str(s)) => s@,
                _ => defaults.language@,
            },
            r.temp == match json_get(*value, "temp"@) {
                Some(Json::Null) => None,
                Some(Json::Str(s)) => Some(s),
                _ => defaults.temp,
            },
    {
        let language = match value.get("language") {
            Some(Json::Str(s)) => s.clone(),
            _ => defaults.language,
        };
        let temp = match value.get("temp") {
            Some(Json::Null) => None,
            Some(Json::Str(s)) => Some(s.clone()),
            _ => defaults.temp,
        };
        Launcher { language, temp }
    }
}

} // verus!
