//! The version index: groups of component releases read from a manifest,
//! and the lookups that resolve a name to a group or a version.
//!
//! Entries of the manifest that lack a required field are dropped one by
//! one, so that a malformed entry never blocks the valid ones; a group left
//! with no valid version is dropped as well.

use vstd::prelude::*;
use crate::json::{Json, json_get, json_text, parse_json, parsed_json};
use crate::text::same_text;

verus! {

/// Environment variables applied at launch, in manifest order. Values may
/// hold the placeholders `%build%`, `%prefix%`, `%temp%`, `%launcher%` and
/// `%game%`, which the caller resolves.
#[derive(Debug, Clone)]
pub struct Features {
    pub env: Vec<(String, String)>,
}

/// One installable release of a component.
#[derive(Debug, Clone)]
pub struct Version {
    pub name: String,
    pub version: String,
    pub uri: String,
    pub features: Option<Features>,
}

/// A named family of releases, newest first.
#[derive(Debug, Clone)]
pub struct Group {
    pub name: String,
    pub title: String,
    pub features: Features,
    pub versions: Vec<Version>,
}

pub type EnvView = Seq<(Seq<char>, Seq<char>)>;

pub ghost struct VersionView {
    pub name: Seq<char>,
    pub version: Seq<char>,
    pub uri: Seq<char>,
    pub features: Option<EnvView>,
}

pub ghost struct GroupView {
    pub name: Seq<char>,
    pub title: Seq<char>,
    pub features: EnvView,
    pub versions: Seq<VersionView>,
}

pub open spec fn env_view(e: Seq<(String, String)>) -> EnvView {
    e.map_values(|p: (String, String)| (p.0@, p.1@))
}

impl View for Features {
    type V = EnvView;

    open spec fn view(&self) -> EnvView {
        env_view(self.env@)
    }
}

impl View for Version {
    type V = VersionView;

    open spec fn view(&self) -> VersionView {
        VersionView {
            name: self.name@,
            version: self.version@,
            uri: self.uri@,
            features: match self.features {
                Some(f) => Some(f@),
                None => None,
            },
        }
    }
}

impl View for Group {
    type V = GroupView;

    open spec fn view(&self) -> GroupView {
        GroupView {
            name: self.name@,
            title: self.title@,
            features: self.features@,
            versions: self.versions@.map_values(|v: Version| v@),
        }
    }
}

/// The text that a scalar JSON value stands for in an environment value.
pub open spec fn scalar_text(j: Json) -> Option<Seq<char>> {
    match j {
        Json::Str(s) => Some(s@),
        Json::Number(t) => Some(t@),
        Json::Bool(b) => Some(if b { "true"@ } else { "false"@ }),
        Json::Null => Some("null"@),
        _ => None,
    }
}

/// The environment entries of the members of an `env` object; members whose
/// value is an array or an object carry no text and are left out.
pub open spec fn env_entries(m: Seq<(String, Json)>) -> EnvView
    decreases m.len(),
{
    if m.len() == 0 {
        seq![]
    } else {
        let rest = env_entries(m.drop_last());
        match scalar_text(m.last().1) {
            Some(t) => rest.push((m.last().0@, t)),
            None => rest,
        }
    }
}

/// The features that a `features` JSON value describes.
pub open spec fn features_of(j: Json) -> EnvView {
    match json_get(j, "env"@) {
        Some(Json::Object(m)) => env_entries(m@),
        _ => seq![],
    }
}

/// The version that a manifest entry describes, where its fields are there.
pub open spec fn version_of(j: Json) -> Option<VersionView> {
    match (json_text(json_get(j, "name"@)), json_text(json_get(j, "version"@)), json_text(json_get(j, "uri"@))) {
        (Some(n), Some(v), Some(u)) => Some(VersionView {
            name: n,
            version: v,
            uri: u,
            features: match json_get(j, "features"@) {
                Some(f) => Some(features_of(f)),
                None => None,
            },
        }),
        _ => None,
    }
}

/// The valid versions among manifest entries, in order.
pub open spec fn versions_of(s: Seq<Json>) -> Seq<VersionView>
    decreases s.len(),
{
    if s.len() == 0 {
        seq![]
    } else {
        let rest = versions_of(s.drop_last());
        match version_of(s.last()) {
            Some(v) => rest.push(v),
            None => rest,
        }
    }
}

/// The group that a manifest entry describes, where its fields are there and
/// at least one of its versions is valid.
pub open spec fn group_of(j: Json) -> Option<GroupView> {
    match (json_text(json_get(j, "name"@)), json_text(json_get(j, "title"@)), json_get(j, "versions"@)) {
        (Some(n), Some(t), Some(Json::Array(vs))) => if versions_of(vs@).len() > 0 {
            Some(GroupView {
                name: n,
                title: t,
                features: match json_get(j, "features"@) {
                    Some(f) => features_of(f),
                    None => seq![],
                },
                versions: versions_of(vs@),
            })
        } else {
            None
        },
        _ => None,
    }
}

/// The valid groups among manifest entries, in order.
pub open spec fn groups_of(s: Seq<Json>) -> Seq<GroupView>
    decreases s.len(),
{
    if s.len() == 0 {
        seq![]
    } else {
        let rest = groups_of(s.drop_last());
        match group_of(s.last()) {
            Some(g) => rest.push(g),
            None => rest,
        }
    }
}

/// The groups of a manifest: a JSON array of group entries.
pub open spec fn manifest_groups(j: Json) -> Seq<GroupView> {
    match j {
        Json::Array(a) => groups_of(a@),
        _ => seq![],
    }
}

pub open spec fn opt_text(o: Option<String>) -> Option<Seq<char>> {
    match o {
        Some(s) => Some(s@),
        None => None,
    }
}

/// The text of member `key` of `j`, where it is a string.
fn text_member(j: &Json, key: &str) -> (r: Option<String>)
    ensures
        opt_text(r) == json_text(json_get(*j, key@)),
{
    match j.get(key) {
        Some(v) => match v.as_text() {
            Some(s) => Some(s.clone()),
            None => None,
        },
        None => None,
    }
}

/// The text of a scalar JSON value.
fn scalar_to_text(j: &Json) -> (r: Option<String>)
    ensures
        opt_text(r) == scalar_text(*j),
{
    match j {
        Json::Str(s) => Some(s.clone()),
        Json::Number(t) => Some(t.clone()),
        Json::Bool(b) => Some(if *b { "true".to_string() } else { "false".to_string() }),
        Json::Null => Some("null".to_string()),
        _ => None,
    }
}

impl Default for Features {
    fn default() -> (r: Self)
        ensures
            r@ == Seq::<(Seq<char>, Seq<char>)>::empty(),
    {
        Features { env: Vec::new() }
    }
}

impl Features {
    /// Reads the features of a `features` JSON value: the members of its
    /// `env` object, each with its text.
    pub fn from_json(value: &Json) -> (r: Self)
        ensures
            r@ == features_of(*value),
    {
        let mut env: Vec<(String, String)> = Vec::new();
        match value.get("env") {
            Some(Json::Object(m)) => {
                let mut i: usize = 0;
                while i < m.len()
                    invariant
                        i <= m@.len(),
                        env_view(env@) == env_entries(m@.subrange(0, i as int)),
                    decreases m.len() - i,
                {
                    assert(m@.subrange(0, i + 1).drop_last() == m@.subrange(0, i as int));
                    match scalar_to_text(&m[i].1) {
                        Some(t) => {
                            env.push((m[i].0.clone(), t));
                        },
                        None => {},
                    }
                    proof {
                        assert(env_view(env@) =~= env_entries(m@.subrange(0, i + 1)));
                    }
                    i = i + 1;
                }
                assert(m@.subrange(0, m@.len() as int) == m@);
            },
            _ => {},
        }
        Features { env }
    }
}


/// Reads one version entry of the manifest.
fn version_from_json(j: &Json) -> (r: Option<Version>)
    ensures
        match r {
            Some(v) => version_of(*j) == Some(v@),
            None => version_of(*j) is None,
        },
{
    let name = match text_member(j, "name") {
        Some(s) => s,
        None => return None,
    };
    let version = match text_member(j, "version") {
        Some(s) => s,
        None => return None,
    };
    let uri = match text_member(j, "uri") {
        Some(s) => s,
        None => return None,
    };
    let features = match j.get("features") {
        Some(f) => Some(Features::from_json(f)),
        None => None,
    };
    Some(Version { name, version, uri, features })
}

/// Reads one group entry of the manifest.
fn group_from_json(j: &Json) -> (r: Option<Group>)
    ensures
        match r {
            Some(g) => group_of(*j) == Some(g@),
            None => group_of(*j) is None,
        },
{
    let name = match text_member(j, "name") {
        Some(s) => s,
        None => return None,
    };
    let title = match text_member(j, "title") {
        Some(s) => s,
        None => return None,
    };
    let entries = match j.get("versions") {
        Some(Json::Array(a)) => a,
        _ => return None,
    };
    let mut versions: Vec<Version> = Vec::new();
    let mut i: usize = 0;
    while i < entries.len()
        invariant
            i <= entries@.len(),
            versions@.map_values(|v: Version| v@) == versions_of(entries@.subrange(0, i as int)),
        decreases entries.len() - i,
    {
        assert(entries@.subrange(0, i + 1).drop_last() == entries@.subrange(0, i as int));
        match version_from_json(&entries[i]) {
            Some(v) => {
                versions.push(v);
            },
            None => {},
        }
        proof {
            assert(versions@.map_values(|v: Version| v@) =~= versions_of(entries@.subrange(0, i + 1)));
        }
        i = i + 1;
    }
    assert(entries@.subrange(0, entries@.len() as int) == entries@);
    if versions.len() == 0 {
        return None;
    }
    let features = match j.get("features") {
        Some(f) => Features::from_json(f),
        None => Features::default(),
    };
    Some(Group { name, title, features, versions })
}

/// Reads the groups of a manifest value. An entry that lacks a required
/// field is left out, and so is a group with no valid version.
pub fn groups_from_json(manifest: &Json) -> (r: Vec<Group>)
    ensures
        r@.map_values(|g: Group| g@) == manifest_groups(*manifest),
{
    let mut groups: Vec<Group> = Vec::new();
    match manifest {
        Json::Array(entries) => {
            let mut i: usize = 0;
            while i < entries.len()
                invariant
                    i <= entries@.len(),
                    groups@.map_values(|g: Group| g@) == groups_of(entries@.subrange(0, i as int)),
                decreases entries.len() - i,
            {
                assert(entries@.subrange(0, i + 1).drop_last() == entries@.subrange(0, i as int));
                match group_from_json(&entries[i]) {
                    Some(g) => {
                        groups.push(g);
                    },
                    None => {},
                }
                proof {
                    assert(groups@.map_values(|g: Group| g@) =~= groups_of(entries@.subrange(0, i + 1)));
                }
                i = i + 1;
            }
            assert(entries@.subrange(0, entries@.len() as int) == entries@);
        },
        _ => {},
    }
    groups
}

/// Reads the groups of a manifest text; text that is no JSON gives none.
pub fn get_groups(manifest: &str) -> (r: Vec<Group>)
    ensures
        r@.map_values(|g: Group| g@) == match parsed_json(manifest@) {
            Some(j) => manifest_groups(j),
            None => seq![],
        },
{
    match parse_json(manifest) {
        Some(j) => groups_from_json(&j),
        None => Vec::new(),
    }
}


/// Why the index cannot name a latest version.
#[derive(Debug, Clone, Copy, PartialEq, Eq)]
pub enum IndexError {
    /// The index has no group, or its first group has no version.
    IndexEmpty,
}

pub open spec fn groups_view(gs: Seq<Group>) -> Seq<GroupView> {
    gs.map_values(|g: Group| g@)
}

/// `n` names the version `v`, by its name or by its version tag.
pub open spec fn version_matches(v: VersionView, n: Seq<char>) -> bool {
    v.name == n || v.version == n
}

/// Some version of `g` is named `n`.
pub open spec fn has_version_named(g: GroupView, n: Seq<char>) -> bool {
    exists|j: int| 0 <= j < g.versions.len() && #[trigger] g.versions[j].name == n
}

/// Some version of `g` is named or tagged `n`.
pub open spec fn has_version_matching(g: GroupView, n: Seq<char>) -> bool {
    exists|j: int| 0 <= j < g.versions.len() && #[trigger] version_matches(g.versions[j], n)
}

/// `n` names the group `g`: its own name, or the name of one of its versions.
pub open spec fn group_matches(g: GroupView, n: Seq<char>) -> bool {
    g.name == n || has_version_named(g, n)
}

/// Index of the first group from `i` on that `n` names.
pub open spec fn group_from(gs: Seq<GroupView>, n: Seq<char>, i: int) -> Option<int>
    decreases gs.len() - i,
{
    if i < 0 || i >= gs.len() {
        None
    } else if group_matches(gs[i], n) {
        Some(i)
    } else {
        group_from(gs, n, i + 1)
    }
}

/// Index of the first group from `i` on that holds a version `n` names.
pub open spec fn holder_from(gs: Seq<GroupView>, n: Seq<char>, i: int) -> Option<int>
    decreases gs.len() - i,
{
    if i < 0 || i >= gs.len() {
        None
    } else if has_version_matching(gs[i], n) {
        Some(i)
    } else {
        holder_from(gs, n, i + 1)
    }
}

/// Index of the first version from `j` on that `n` names.
pub open spec fn version_from(vs: Seq<VersionView>, n: Seq<char>, j: int) -> Option<int>
    decreases vs.len() - j,
{
    if j < 0 || j >= vs.len() {
        None
    } else if version_matches(vs[j], n) {
        Some(j)
    } else {
        version_from(vs, n, j + 1)
    }
}

/// The first version, across the groups in order, that `n` names.
pub open spec fn find_version_of(gs: Seq<GroupView>, n: Seq<char>) -> Option<VersionView> {
    match holder_from(gs, n, 0) {
        Some(i) => match version_from(gs[i].versions, n, 0) {
            Some(j) => Some(gs[i].versions[j]),
            None => None,
        },
        None => None,
    }
}

/// The latest version of an index: the first version of its first group.
pub open spec fn latest_of(gs: Seq<GroupView>) -> Option<VersionView> {
    if gs.len() > 0 && gs[0].versions.len() > 0 {
        Some(gs[0].versions[0])
    } else {
        None
    }
}

proof fn lemma_version_from(vs: Seq<VersionView>, n: Seq<char>, j0: int)
    requires
        0 <= j0,
    ensures
        match version_from(vs, n, j0) {
            Some(j) => j0 <= j < vs.len() && version_matches(vs[j], n),
            None => forall|k: int| j0 <= k < vs.len() ==> !#[trigger] version_matches(vs[k], n),
        },
    decreases vs.len() - j0,
{
    if j0 < vs.len() && !version_matches(vs[j0], n) {
        lemma_version_from(vs, n, j0 + 1);
    }
}

/// Whether some version of `g` is named `name`.
fn any_version_named(g: &Group, name: &str) -> (r: bool)
    ensures
        r == has_version_named(g@, name@),
{
    let mut j: usize = 0;
    while j < g.versions.len()
        invariant
            j <= g.versions@.len(),
            forall|k: int| 0 <= k < j ==> g@.versions[k].name != name@,
        decreases g.versions.len() - j,
    {
        if same_text(g.versions[j].name.as_str(), name) {
            assert(g@.versions[j as int].name == name@);
            return true;
        }
        j = j + 1;
    }
    false
}

/// Index of the first version of `vs` that `name` names.
fn first_version_matching(vs: &Vec<Version>, name: &str) -> (r: Option<usize>)
    ensures
        match r {
            Some(j) => version_from(vs@.map_values(|v: Version| v@), name@, 0) == Some(j as int),
            None => version_from(vs@.map_values(|v: Version| v@), name@, 0) is None,
        },
{
    let ghost vv = vs@.map_values(|v: Version| v@);
    let mut j: usize = 0;
    while j < vs.len()
        invariant
            j <= vs@.len(),
            vv == vs@.map_values(|v: Version| v@),
            version_from(vv, name@, 0) == version_from(vv, name@, j as int),
        decreases vs.len() - j,
    {
        if same_text(vs[j].name.as_str(), name) || same_text(vs[j].version.as_str(), name) {
            assert(version_from(vv, name@, j as int) == Some(j as int));
            return Some(j);
        }
        j = j + 1;
    }
    None
}

impl Group {
    /// The first group that `name` names: by its own name, or by the name of
    /// one of its versions.
    pub fn find_in(groups: Vec<Group>, name: &str) -> (r: Option<Group>)
        ensures
            match group_from(groups_view(groups@), name@, 0) {
                Some(i) => r == Some(groups@[i]),
                None => r is None,
            },
    {
        let ghost gv = groups_view(groups@);
        let mut gs = groups;
        let mut i: usize = 0;
        while i < gs.len()
            invariant
                i <= gs@.len(),
                gv == groups_view(gs@),
                gs@ == groups@,
                group_from(gv, name@, 0) == group_from(gv, name@, i as int),
            decreases gs.len() - i,
        {
            if same_text(gs[i].name.as_str(), name) || any_version_named(&gs[i], name) {
                assert(group_from(gv, name@, i as int) == Some(i as int));
                return Some(gs.remove(i));
            }
            i = i + 1;
        }
        None
    }
}

impl Version {
    /// The latest version of an index: the first version of its first group.
    pub fn latest(groups: Vec<Group>) -> (r: Result<Version, IndexError>)
        ensures
            match latest_of(groups_view(groups@)) {
                Some(v) => r matches Ok(x) && x == groups@[0].versions@[0] && x@ == v,
                None => r == Err::<Version, IndexError>(IndexError::IndexEmpty),
            },
    {
        let mut gs = groups;
        if gs.len() == 0 {
            return Err(IndexError::IndexEmpty);
        }
        let mut first = gs.remove(0);
        if first.versions.len() == 0 {
            return Err(IndexError::IndexEmpty);
        }
        Ok(first.versions.remove(0))
    }

    /// The first version, across the groups in order, whose name or version
    /// tag is `name`.
    pub fn find_in(groups: Vec<Group>, name: &str) -> (r: Option<Version>)
        ensures
            match find_version_of(groups_view(groups@), name@) {
                Some(v) => r matches Some(x) && x@ == v,
                None => r is None,
            },
    {
        let ghost gv = groups_view(groups@);
        let mut gs = groups;
        let mut i: usize = 0;
        while i < gs.len()
            invariant
                i <= gs@.len(),
                gv == groups_view(gs@),
                gs@ == groups@,
                holder_from(gv, name@, 0) == holder_from(gv, name@, i as int),
            decreases gs.len() - i,
        {
            match first_version_matching(&gs[i].versions, name) {
                Some(j) => {
                    proof { lemma_version_from(gv[i as int].versions, name@, 0); }
                    assert(holder_from(gv, name@, i as int) == Some(i as int));
                    let mut g = gs.remove(i);
                    return Some(g.versions.remove(j));
                },
                None => {
                    proof { lemma_version_from(gv[i as int].versions, name@, 0); }
                },
            }
            i = i + 1;
        }
        None
    }

    /// The first group that holds a version whose name or version tag is
    /// this version's name.
    pub fn find_group(&self, groups: Vec<Group>) -> (r: Option<Group>)
        ensures
            match holder_from(groups_view(groups@), self.name@, 0) {
                Some(i) => r == Some(groups@[i]),
                None => r is None,
            },
    {
        let ghost gv = groups_view(groups@);
        let mut gs = groups;
        let mut i: usize = 0;
        while i < gs.len()
            invariant
                i <= gs@.len(),
                gv == groups_view(gs@),
                gs@ == groups@,
                holder_from(gv, self.name@, 0) == holder_from(gv, self.name@, i as int),
            decreases gs.len() - i,
        {
            match first_version_matching(&gs[i].versions, self.name.as_str()) {
                Some(j) => {
                    proof { lemma_version_from(gv[i as int].versions, self.name@, 0); }
                    assert(holder_from(gv, self.name@, i as int) == Some(i as int));
                    return Some(gs.remove(i));
                },
                None => {
                    proof { lemma_version_from(gv[i as int].versions, self.name@, 0); }
                },
            }
            i = i + 1;
        }
        None
    }
}


/// `names` holds `n`.
pub open spec fn listed(names: Seq<String>, n: Seq<char>) -> bool {
    exists|i: int| 0 <= i < names.len() && #[trigger] names[i]@ == n
}

/// The versions of `vs` whose directory is among `names`, in order.
pub open spec fn present_versions(vs: Seq<VersionView>, names: Seq<String>) -> Seq<VersionView>
    decreases vs.len(),
{
    if vs.len() == 0 {
        seq![]
    } else {
        let rest = present_versions(vs.drop_last(), names);
        if listed(names, vs.last().name) {
            rest.push(vs.last())
        } else {
            rest
        }
    }
}

/// The groups of `gs` cut down to their downloaded versions; a group with
/// none is left out.
pub open spec fn downloaded_of(gs: Seq<GroupView>, names: Seq<String>) -> Seq<GroupView>
    decreases gs.len(),
{
    if gs.len() == 0 {
        seq![]
    } else {
        let rest = downloaded_of(gs.drop_last(), names);
        let g = gs.last();
        let kept = present_versions(g.versions, names);
        if kept.len() > 0 {
            rest.push(GroupView { versions: kept, ..g })
        } else {
            rest
        }
    }
}

fn is_listed(names: &Vec<String>, n: &str) -> (r: bool)
    ensures
        r == listed(names@, n@),
{
    let mut i: usize = 0;
    while i < names.len()
        invariant
            i <= names@.len(),
            forall|k: int| 0 <= k < i ==> names@[k]@ != n@,
        decreases names.len() - i,
    {
        if same_text(names[i].as_str(), n) {
            return true;
        }
        i = i + 1;
    }
    false
}

impl Features {
    /// A copy of these features.
    pub fn duplicate(&self) -> (r: Features)
        ensures
            r@ == self@,
    {
        let mut env: Vec<(String, String)> = Vec::new();
        let mut i: usize = 0;
        while i < self.env.len()
            invariant
                i <= self.env@.len(),
                env@.len() == i,
                forall|x: int| 0 <= x < i ==> (#[trigger] env@[x]).0@ == self.env@[x].0@ && env@[x].1@ == self.env@[x].1@,
            decreases self.env.len() - i,
        {
            let k = self.env[i].0.clone();
            let v = self.env[i].1.clone();
            env.push((k, v));
            i = i + 1;
        }
        assert(env_view(env@) =~= env_view(self.env@));
        Features { env }
    }
}

impl Version {
    /// A copy of this version.
    pub fn duplicate(&self) -> (r: Version)
        ensures
            r@ == self@,
    {
        let features = match &self.features {
            Some(f) => Some(f.duplicate()),
            None => None,
        };
        Version { name: self.name.clone(), version: self.version.clone(), uri: self.uri.clone(), features }
    }

    /// Whether this version is downloaded, given the names of the
    /// directories that the download folder holds.
    pub fn is_downloaded_in(&self, folder_entries: &Vec<String>) -> (r: bool)
        ensures
            r == listed(folder_entries@, self.name@),
    {
        is_listed(folder_entries, self.name.as_str())
    }
}

/// The groups cut down to their downloaded versions, given the names of the
/// directories that the download folder holds; a group with no downloaded
/// version is left out.
pub fn get_downloaded(groups: &Vec<Group>, folder_entries: &Vec<String>) -> (r: Vec<Group>)
    ensures
        groups_view(r@) == downloaded_of(groups_view(groups@), folder_entries@),
{
    let mut out: Vec<Group> = Vec::new();
    let mut i: usize = 0;
    while i < groups.len()
        invariant
            i <= groups@.len(),
            groups_view(out@) == downloaded_of(groups_view(groups@.subrange(0, i as int)), folder_entries@),
        decreases groups.len() - i,
    {
        let g = &groups[i];
        let mut kept: Vec<Version> = Vec::new();
        let mut j: usize = 0;
        while j < g.versions.len()
            invariant
                j <= g.versions@.len(),
                kept@.map_values(|v: Version| v@) == present_versions(
                    g.versions@.subrange(0, j as int).map_values(|v: Version| v@), folder_entries@),
            decreases g.versions.len() - j,
        {
            assert(g.versions@.subrange(0, j + 1).map_values(|v: Version| v@).drop_last()
                =~= g.versions@.subrange(0, j as int).map_values(|v: Version| v@));
            if g.versions[j].is_downloaded_in(folder_entries) {
                kept.push(g.versions[j].duplicate());
            }
            proof {
                assert(kept@.map_values(|v: Version| v@) =~= present_versions(
                    g.versions@.subrange(0, j + 1).map_values(|v: Version| v@), folder_entries@));
            }
            j = j + 1;
        }
        assert(g.versions@.subrange(0, g.versions@.len() as int) == g.versions@);
        assert(groups_view(groups@.subrange(0, i + 1)).drop_last() =~= groups_view(groups@.subrange(0, i as int)));
        if kept.len() > 0 {
            out.push(Group {
                name: g.name.clone(),
                title: g.title.clone(),
                features: g.features.duplicate(),
                versions: kept,
            });
        }
        proof {
            assert(groups_view(out@) =~= downloaded_of(groups_view(groups@.subrange(0, i + 1)), folder_entries@));
        }
        i = i + 1;
    }
    assert(groups@.subrange(0, groups@.len() as int) == groups@);
    out
}

/// Where an index has a group and its first group a version, the latest
/// version is that first version, unchanged.
pub proof fn latest_is_first_version(gs: Seq<GroupView>)
    requires
        gs.len() >= 1,
        gs[0].versions.len() >= 1,
    ensures
        latest_of(gs) == Some(gs[0].versions[0]),
{
}

/// A name that some group's version carries finds a group, whether or not
/// it is that group's own name.
pub proof fn version_name_finds_group(gs: Seq<GroupView>, n: Seq<char>, i: int, j: int)
    requires
        0 <= i < gs.len(),
        0 <= j < gs[i].versions.len(),
        gs[i].versions[j].name == n,
    ensures
        group_from(gs, n, 0) is Some,
{
    lemma_group_from_found(gs, n, 0, i);
}

proof fn lemma_group_from_found(gs: Seq<GroupView>, n: Seq<char>, k: int, i: int)
    requires
        0 <= k <= i < gs.len(),
        group_matches(gs[i], n),
    ensures
        group_from(gs, n, k) is Some,
    decreases i - k,
{
    if !group_matches(gs[k], n) {
        lemma_group_from_found(gs, n, k + 1, i);
    }
}

} // verus!
