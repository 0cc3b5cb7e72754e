//! Steam users and the launcher's non-Steam shortcut in their shortcut
//! lists.

use vstd::prelude::*;
use crate::text::{join_path, path_join, same_text};

verus! {

/// A Steam user with a userdata directory.
#[derive(Debug, Clone)]
pub struct SteamUser {
    pub user_id: String,
    pub userdata_path: String,
}

/// The name that the launcher's shortcut carries.
pub const STEAM_APP_NAME: &'static str = "Zenless Zone Zero";

/// The tag that marks the launcher's shortcut.
pub const SHORTCUT_TAG: &'static str = "sleepy-launcher";

/// The location of a user's shortcut list.
pub fn get_shortcuts_path(user: &SteamUser) -> (r: String)
    ensures
        r@ == path_join(user.userdata_path@, "config/shortcuts.vdf"@),
{
    join_path(user.userdata_path.as_str(), "config/shortcuts.vdf")
}

/// The name and tags of each shortcut of a shortcut list, as
/// steam_shortcuts_util reads them; `None` where the list cannot be read.
pub uninterp spec fn shortcut_labels(content: Seq<u8>) -> Option<Seq<(Seq<char>, Seq<Seq<char>>)>>;

pub open spec fn tags_view(tags: Seq<String>) -> Seq<Seq<char>> {
    tags.map_values(|t: String| t@)
}

pub open spec fn label_view(l: (String, Vec<String>)) -> (Seq<char>, Seq<Seq<char>>) {
    (l.0@, tags_view(l.1@))
}

/// Relies on steam_shortcuts_util::parse_shortcuts: reads a binary
/// shortcut list; each shortcut is handed over as its name and tags.
#[verifier::external_body]
fn parse_labels(content: &[u8]) -> (r: Option<Vec<(String, Vec<String>)>>)
    ensures
        match r {
            Some(v) => shortcut_labels(content@) == Some(v@.map_values(|l: (String, Vec<String>)| label_view(l))),
            None => shortcut_labels(content@) is None,
        },
{
    match steam_shortcuts_util::parse_shortcuts(content) {
        Ok(v) => Some(v.into_iter().map(|s| (s.app_name.to_string(), s.tags.iter().map(|t| t.to_string()).collect())).collect()),
        Err(_) => None,
    }
}

/// A shortcut with this name and these tags is the launcher's.
pub open spec fn is_ours(app_name: Seq<char>, tags: Seq<Seq<char>>) -> bool {
    app_name == STEAM_APP_NAME@ && exists|i: int| 0 <= i < tags.len() && tags[i] == SHORTCUT_TAG@
}

/// Whether a shortcut with this name and these tags is the launcher's.
pub fn is_launcher_shortcut(app_name: &str, tags: &Vec<String>) -> (r: bool)
    ensures
        r == is_ours(app_name@, tags_view(tags@)),
{
    if !same_text(app_name, STEAM_APP_NAME) {
        return false;
    }
    let ghost tv = tags_view(tags@);
    let mut i: usize = 0;
    while i < tags.len()
        invariant
            i <= tags@.len(),
            app_name@ == STEAM_APP_NAME@,
            tv == tags_view(tags@),
            forall|k: int| 0 <= k < i ==> tv[k] != SHORTCUT_TAG@,
        decreases tags.len() - i,
    {
        if same_text(tags[i].as_str(), SHORTCUT_TAG) {
            assert(tv[i as int] == SHORTCUT_TAG@);
            return true;
        }
        i = i + 1;
    }
    false
}

/// A shortcut list holds the launcher's shortcut.
pub open spec fn lists_ours(content: Seq<u8>) -> bool {
    match shortcut_labels(content) {
        Some(ls) => holds_ours(ls),
        None => false,
    }
}

/// Some shortcut among `ls` is the launcher's.
pub open spec fn holds_ours(ls: Seq<(Seq<char>, Seq<Seq<char>>)>) -> bool {
    exists|i: int| 0 <= i < ls.len() && #[trigger] is_ours(ls[i].0, ls[i].1)
}

/// Whether a shortcut list holds the launcher's shortcut; a list that
/// cannot be read holds none.
pub fn has_launcher_shortcut(content: &[u8]) -> (r: bool)
    ensures
        r == lists_ours(content@),
{
    match parse_labels(content) {
        Some(ls) => {
            let ghost lv = ls@.map_values(|l: (String, Vec<String>)| label_view(l));
            let mut i: usize = 0;
            while i < ls.len()
                invariant
                    i <= ls@.len(),
                    lv == ls@.map_values(|l: (String, Vec<String>)| label_view(l)),
                    shortcut_labels(content@) == Some(lv),
                    forall|k: int| 0 <= k < i ==> !is_ours(#[trigger] lv[k].0, lv[k].1),
                decreases ls.len() - i,
            {
                if is_launcher_shortcut(ls[i].0.as_str(), &ls[i].1) {
                    assert(lv[i as int] == label_view(ls@[i as int]));
                    assert(is_ours(lv[i as int].0, lv[i as int].1));
                    assert(holds_ours(lv));
                    return true;
                }
                i = i + 1;
            }
            false
        },
        None => false,
    }
}

/// The content of user `i`'s shortcut list holds the launcher's shortcut.
pub open spec fn user_has_ours(lists: Seq<Option<Vec<u8>>>, i: int) -> bool {
    0 <= i < lists.len() && match lists[i] {
        Some(c) => lists_ours(c@),
        None => false,
    }
}

/// The users whose shortcut list holds the launcher's shortcut, in order;
/// `shortcut_lists[i]` is the content of user `i`'s list, `None` where
/// there is none.
pub open spec fn users_with_ours(users: Seq<SteamUser>, lists: Seq<Option<Vec<u8>>>) -> Seq<SteamUser>
    decreases users.len(),
{
    if users.len() == 0 {
        seq![]
    } else {
        let rest = users_with_ours(users.drop_last(), lists);
        if user_has_ours(lists, users.len() - 1) {
            rest.push(users.last())
        } else {
            rest
        }
    }
}

/// The users whose shortcut list holds the launcher's shortcut, in order;
/// `shortcut_lists[i]` is the content of user `i`'s list, `None` where
/// there is none or it cannot be read.
pub fn get_users_with_shortcut(users: Vec<SteamUser>, shortcut_lists: &Vec<Option<Vec<u8>>>) -> (r: Vec<SteamUser>)
    ensures
        r@ == users_with_ours(users@, shortcut_lists@),
{
    let ghost all = users@;
    let n = users.len();
    let mut rest = users;
    let mut kept: Vec<SteamUser> = Vec::new();
    let mut i: usize = 0;
    while rest.len() > 0
        invariant
            i + rest@.len() == all.len(),
            all.len() == n,
            rest@ == all.subrange(i as int, all.len() as int),
            kept@ == users_with_ours(all.subrange(0, i as int), shortcut_lists@),
        decreases rest.len(),
    {
        let u = rest.remove(0);
        assert(all.subrange(0, i + 1).drop_last() == all.subrange(0, i as int));
        let ours = i < shortcut_lists.len() && match &shortcut_lists[i] {
            Some(c) => has_launcher_shortcut(c.as_slice()),
            None => false,
        };
        if ours {
            kept.push(u);
        }
        proof {
            assert(kept@ =~= users_with_ours(all.subrange(0, i + 1), shortcut_lists@));
        }
        i = i + 1;
    }
    assert(all.subrange(0, all.len() as int) == all);
    kept
}

} // verus!
