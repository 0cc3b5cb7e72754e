//! The overlay of a modding toolkit onto a game directory: locating the
//! artifacts inside the downloaded packages, planning the copies and links
//! that place them, and planning their removal afterwards.
//!
//! Plans are lists of actions relative to the game directory. They are
//! computed in full before anything is touched, so that a missing required
//! artifact aborts with the game directory unchanged.

use vstd::prelude::*;
use crate::text::{join_path, path_join, same_text};

verus! {

/// What a directory entry is, as seen without following links.
#[derive(Debug, Clone, Copy, PartialEq, Eq, Structural)]
pub enum EntryKind {
    File,
    Dir,
    Symlink,
}

/// The contents of a directory, as read from disk.
#[derive(Debug)]
pub struct Tree {
    pub entries: Vec<Node>,
}

/// One entry of a directory; a directory's entry holds its own contents.
#[derive(Debug)]
pub struct Node {
    pub name: String,
    pub kind: EntryKind,
    pub children: Tree,
}

/// How many directory levels below a package root a search descends.
pub const SEARCH_DEPTH: usize = 32;

/// `t` holds an entry named `name` (a directory, where `dirs_only`).
pub open spec fn has_entry(t: Tree, name: Seq<char>, dirs_only: bool) -> bool {
    exists|i: int|
        0 <= i < t.entries@.len() && #[trigger] t.entries@[i].name@ == name && (!dirs_only
            || t.entries@[i].kind == EntryKind::Dir)
}

/// The first directory, searching `t` (at path `dir`) and then its
/// subdirectories in order, depth first and at most `depth` levels down,
/// that holds an entry named `name`: its path and its contents.
pub open spec fn search(t: Tree, dir: Seq<char>, name: Seq<char>, dirs_only: bool, depth: nat) -> Option<(Seq<char>, Tree)>
    decreases depth, 0int,
{
    if has_entry(t, name, dirs_only) {
        Some((dir, t))
    } else if depth == 0 {
        None
    } else {
        search_children(t.entries@, dir, name, dirs_only, (depth - 1) as nat, 0)
    }
}

/// The first hit of `search` below the subdirectories `es[i..]` of `dir`.
pub open spec fn search_children(es: Seq<Node>, dir: Seq<char>, name: Seq<char>, dirs_only: bool, depth: nat, i: int) -> Option<(Seq<char>, Tree)>
    decreases depth, es.len() - i,
{
    if i < 0 || i >= es.len() {
        None
    } else {
        let hit = if es[i].kind == EntryKind::Dir {
            search(es[i].children, path_join(dir, es[i].name@), name, dirs_only, depth)
        } else {
            None
        };
        if hit is Some {
            hit
        } else {
            search_children(es, dir, name, dirs_only, depth, i + 1)
        }
    }
}

/// Whether `t` holds an entry named `name` (a directory, where `dirs_only`).
pub fn holds_entry(t: &Tree, name: &str, dirs_only: bool) -> (r: bool)
    ensures
        r == has_entry(*t, name@, dirs_only),
{
    let mut i: usize = 0;
    while i < t.entries.len()
        invariant
            i <= t.entries@.len(),
            forall|k: int|
                0 <= k < i ==> !(#[trigger] t.entries@[k].name@ == name@ && (!dirs_only
                    || t.entries@[k].kind == EntryKind::Dir)),
        decreases t.entries.len() - i,
    {
        if same_text(t.entries[i].name.as_str(), name) && (!dirs_only || t.entries[i].kind
            == EntryKind::Dir) {
            return true;
        }
        i = i + 1;
    }
    false
}

/// Searches `t`, found at path `dir`, for the directory that holds `name`.
pub fn search_tree<'a>(t: &'a Tree, dir: &str, name: &str, dirs_only: bool, depth: usize) -> (r: Option<(String, &'a Tree)>)
    ensures
        match r {
            Some((p, s)) => search(*t, dir@, name@, dirs_only, depth as nat) == Some((p@, *s)),
            None => search(*t, dir@, name@, dirs_only, depth as nat) is None,
        },
    decreases depth,
{
    if holds_entry(t, name, dirs_only) {
        return Some((dir.to_string(), t));
    }
    if depth == 0 {
        return None;
    }
    let ghost es = t.entries@;
    let mut i: usize = 0;
    while i < t.entries.len()
        invariant
            i <= es.len(),
            es == t.entries@,
            depth > 0,
            !has_entry(*t, name@, dirs_only),
            search(*t, dir@, name@, dirs_only, depth as nat) == search_children(es, dir@, name@, dirs_only, (depth - 1) as nat, i as int),
        decreases t.entries.len() - i,
    {
        if t.entries[i].kind == EntryKind::Dir {
            let sub = join_path(dir, t.entries[i].name.as_str());
            match search_tree(&t.entries[i].children, sub.as_str(), name, dirs_only, depth - 1) {
                Some(hit) => {
                    return Some(hit);
                },
                None => {},
            }
        }
        i = i + 1;
    }
    None
}

/// The path of a file named `filename` in `root` (at path `root_dir`) or
/// below it, searching depth first.
pub fn find_file_recursive(root: &Tree, root_dir: &str, filename: &str) -> (r: Option<String>)
    ensures
        match search(*root, root_dir@, filename@, false, SEARCH_DEPTH as nat) {
            Some((d, _)) => r matches Some(p) && p@ == path_join(d, filename@),
            None => r is None,
        },
{
    match search_tree(root, root_dir, filename, false, SEARCH_DEPTH) {
        Some((d, _)) => Some(join_path(d.as_str(), filename)),
        None => None,
    }
}

/// The path of a directory named `dirname` in `root` (at path `root_dir`) or
/// below it, searching depth first.
pub fn find_dir_recursive(root: &Tree, root_dir: &str, dirname: &str) -> (r: Option<String>)
    ensures
        match search(*root, root_dir@, dirname@, true, SEARCH_DEPTH as nat) {
            Some((d, _)) => r matches Some(p) && p@ == path_join(d, dirname@),
            None => r is None,
        },
{
    match search_tree(root, root_dir, dirname, true, SEARCH_DEPTH) {
        Some((d, _)) => Some(join_path(d.as_str(), dirname)),
        None => None,
    }
}


/// One change to the game directory; names are entries of that directory.
#[derive(Debug)]
pub enum Action {
    /// Copy the file at `from` to the entry `name`.
    CopyFile { from: String, name: String },
    /// Remove the file or link `name`.
    RemoveFile { name: String },
    /// Remove the directory `name` with its contents.
    RemoveDirAll { name: String },
    /// Create the directory `path` and its parents, where absent.
    CreateDirAll { path: String },
    /// Make `name` a link to the directory `target`.
    Symlink { target: String, name: String },
}

pub ghost enum ActionView {
    CopyFile { from: Seq<char>, name: Seq<char> },
    RemoveFile { name: Seq<char> },
    RemoveDirAll { name: Seq<char> },
    CreateDirAll { path: Seq<char> },
    Symlink { target: Seq<char>, name: Seq<char> },
}

impl View for Action {
    type V = ActionView;

    open spec fn view(&self) -> ActionView {
        match self {
            Action::CopyFile { from, name } => ActionView::CopyFile { from: from@, name: name@ },
            Action::RemoveFile { name } => ActionView::RemoveFile { name: name@ },
            Action::RemoveDirAll { name } => ActionView::RemoveDirAll { name: name@ },
            Action::CreateDirAll { path } => ActionView::CreateDirAll { path: path@ },
            Action::Symlink { target, name } => ActionView::Symlink { target: target@, name: name@ },
        }
    }
}

pub open spec fn actions_view(a: Seq<Action>) -> Seq<ActionView> {
    a.map_values(|x: Action| x@)
}

/// A required artifact of the overlay.
#[derive(Debug, Clone, Copy, PartialEq, Eq, Structural)]
pub enum RequiredArtifact {
    /// `d3d11.dll`, the injected module, in the library package.
    Loader,
    /// `d3dx.ini`, the injector's configuration, in the configuration package.
    Config,
}

/// Why the overlay cannot be applied.
#[derive(Debug, Clone, Copy, PartialEq, Eq, Structural)]
pub enum OverlayError {
    RequiredArtifactMissing(RequiredArtifact),
}

/// The top level of the game directory: entry names and their kinds.
pub type DirState = Map<Seq<char>, EntryKind>;

/// The state that a listing of the game directory describes.
pub open spec fn listing_map(s: Seq<(String, EntryKind)>) -> DirState
    decreases s.len(),
{
    if s.len() == 0 {
        Map::empty()
    } else {
        listing_map(s.drop_last()).insert(s.last().0@, s.last().1)
    }
}

/// The effect of one action on the game directory.
pub open spec fn step(m: DirState, a: ActionView) -> DirState {
    match a {
        ActionView::CopyFile { name, .. } => m.insert(name, EntryKind::File),
        ActionView::RemoveFile { name } => m.remove(name),
        ActionView::RemoveDirAll { name } => m.remove(name),
        ActionView::CreateDirAll { .. } => m,
        ActionView::Symlink { name, .. } => m.insert(name, EntryKind::Symlink),
    }
}

/// The effect of a plan, run in order and in full, on the game directory.
pub open spec fn run(m: DirState, acts: Seq<ActionView>) -> DirState
    decreases acts.len(),
{
    if acts.len() == 0 {
        m
    } else {
        step(run(m, acts.drop_last()), acts.last())
    }
}

/// Adds a copy of `file` from the directory of a search hit to `to`.
pub open spec fn copy_found(acts: Seq<ActionView>, hit: Option<(Seq<char>, Tree)>, file: Seq<char>, to: Seq<char>) -> Seq<ActionView> {
    match hit {
        Some((d, _)) => acts.push(ActionView::CopyFile { from: path_join(d, file), name: to }),
        None => acts,
    }
}

/// Adds the removal of whatever occupies `name`.
pub open spec fn clear_entry(acts: Seq<ActionView>, m: DirState, name: Seq<char>) -> Seq<ActionView> {
    if m.contains_key(name) {
        if m[name] == EntryKind::Dir {
            acts.push(ActionView::RemoveDirAll { name })
        } else {
            acts.push(ActionView::RemoveFile { name })
        }
    } else {
        acts
    }
}

/// Adds the link of `name` to the folder of that name beside the
/// configuration, after clearing `name`; no link where there is no folder.
pub open spec fn link_folder(acts: Seq<ActionView>, m: DirState, config: (Seq<char>, Tree), name: Seq<char>) -> Seq<ActionView> {
    let a = clear_entry(acts, m, name);
    if has_entry(config.1, name, true) {
        a.push(ActionView::Symlink { target: path_join(config.0, name), name })
    } else {
        a
    }
}

/// The plan that places the overlay into a game directory in state `m`.
pub open spec fn prepare_plan(libs: Tree, libs_dir: Seq<char>, package: Tree, package_dir: Seq<char>, mods: Seq<char>, m: DirState) -> Result<Seq<ActionView>, OverlayError> {
    let d = SEARCH_DEPTH as nat;
    let loader = search(libs, libs_dir, "d3d11.dll"@, false, d);
    let config = search(package, package_dir, "d3dx.ini"@, false, d);
    if loader is None {
        Err(OverlayError::RequiredArtifactMissing(RequiredArtifact::Loader))
    } else if config is None {
        Err(OverlayError::RequiredArtifactMissing(RequiredArtifact::Config))
    } else {
        let a0 = copy_found(seq![], loader, "d3d11.dll"@, "dxgi.dll"@);
        let a1 = copy_found(a0, search(libs, libs_dir, "d3dcompiler_47.dll"@, false, d), "d3dcompiler_47.dll"@, "d3dcompiler_47.dll"@);
        let a2 = copy_found(a1, search(libs, libs_dir, "nvapi64.dll"@, false, d), "nvapi64.dll"@, "nvapi64.dll"@);
        let a3 = copy_found(a2, config, "d3dx.ini"@, "d3dx.ini"@);
        let a4 = link_folder(a3, m, config.unwrap(), "Core"@);
        let a5 = link_folder(a4, m, config.unwrap(), "ShaderFixes"@);
        let a6 = clear_entry(a5, m, "Mods"@);
        Ok(a6.push(ActionView::CreateDirAll { path: mods }).push(ActionView::Symlink { target: mods, name: "Mods"@ }))
    }
}

/// Adds the removal of `name` where it is a file or a link.
pub open spec fn remove_file_at(acts: Seq<ActionView>, m: DirState, name: Seq<char>) -> Seq<ActionView> {
    if m.contains_key(name) && m[name] != EntryKind::Dir {
        acts.push(ActionView::RemoveFile { name })
    } else {
        acts
    }
}

/// Adds the removal of `name` where it is a link.
pub open spec fn unlink_at(acts: Seq<ActionView>, m: DirState, name: Seq<char>) -> Seq<ActionView> {
    if m.contains_key(name) && m[name] == EntryKind::Symlink {
        acts.push(ActionView::RemoveFile { name })
    } else {
        acts
    }
}

/// The plan that takes the overlay out of a game directory in state `m`.
pub open spec fn cleanup_plan(m: DirState) -> Seq<ActionView> {
    let a0 = remove_file_at(seq![], m, "dxgi.dll"@);
    let a1 = remove_file_at(a0, m, "d3dcompiler_47.dll"@);
    let a2 = remove_file_at(a1, m, "nvapi64.dll"@);
    let a3 = remove_file_at(a2, m, "d3dx.ini"@);
    let a4 = remove_file_at(a3, m, "d3d11.dll"@);
    let a5 = unlink_at(a4, m, "Core"@);
    let a6 = unlink_at(a5, m, "ShaderFixes"@);
    unlink_at(a6, m, "Mods"@)
}

/// The kind of the entry `name` in a listing of the game directory.
fn kind_in(listing: &Vec<(String, EntryKind)>, name: &str) -> (r: Option<EntryKind>)
    ensures
        r == (if listing_map(listing@).contains_key(name@) {
            Some(listing_map(listing@)[name@])
        } else {
            None::<EntryKind>
        }),
{
    let mut found: Option<EntryKind> = None;
    let mut i: usize = 0;
    while i < listing.len()
        invariant
            i <= listing@.len(),
            found == (if listing_map(listing@.subrange(0, i as int)).contains_key(name@) {
                Some(listing_map(listing@.subrange(0, i as int))[name@])
            } else {
                None::<EntryKind>
            }),
        decreases listing.len() - i,
    {
        assert(listing@.subrange(0, i + 1).drop_last() == listing@.subrange(0, i as int));
        if same_text(listing[i].0.as_str(), name) {
            found = Some(listing[i].1);
        }
        i = i + 1;
    }
    assert(listing@.subrange(0, listing@.len() as int) == listing@);
    found
}

pub open spec fn hit_view(h: Option<(String, &Tree)>) -> Option<(Seq<char>, Tree)> {
    match h {
        Some((p, t)) => Some((p@, *t)),
        None => None,
    }
}

fn push_copy(acts: &mut Vec<Action>, hit: &Option<(String, &Tree)>, file: &str, to: &str)
    ensures
        actions_view(final(acts)@) == copy_found(actions_view(old(acts)@), hit_view(*hit), file@, to@),
{
    match hit {
        Some((d, _)) => {
            acts.push(Action::CopyFile { from: join_path(d.as_str(), file), name: to.to_string() });
            assert(actions_view(final(acts)@) =~= actions_view(old(acts)@).push(final(acts)@.last()@));
        },
        None => {},
    }
}

fn push_clear(acts: &mut Vec<Action>, listing: &Vec<(String, EntryKind)>, name: &str)
    ensures
        actions_view(final(acts)@) == clear_entry(actions_view(old(acts)@), listing_map(listing@), name@),
{
    match kind_in(listing, name) {
        Some(EntryKind::Dir) => {
            acts.push(Action::RemoveDirAll { name: name.to_string() });
            assert(actions_view(final(acts)@) =~= actions_view(old(acts)@).push(final(acts)@.last()@));
        },
        Some(_) => {
            acts.push(Action::RemoveFile { name: name.to_string() });
            assert(actions_view(final(acts)@) =~= actions_view(old(acts)@).push(final(acts)@.last()@));
        },
        None => {},
    }
}

fn push_link(acts: &mut Vec<Action>, listing: &Vec<(String, EntryKind)>, config_dir: &str, config: &Tree, name: &str)
    ensures
        actions_view(final(acts)@) == link_folder(actions_view(old(acts)@), listing_map(listing@), (config_dir@, *config), name@),
{
    push_clear(acts, listing, name);
    let ghost mid = actions_view(acts@);
    if holds_entry(config, name, true) {
        acts.push(Action::Symlink { target: join_path(config_dir, name), name: name.to_string() });
        assert(actions_view(final(acts)@) =~= mid.push(final(acts)@.last()@));
    }
}

/// Plans the overlay of the packages onto the game directory: the library
/// package `libs` (found at `libs_dir`), the configuration package
/// `package` (at `package_dir`), the user's mods folder `mods_folder`, and
/// the listing of the game directory's entries. Fails, with nothing
/// planned, where a required artifact is missing.
pub fn prepare_mods(libs: &Tree, libs_dir: &str, package: &Tree, package_dir: &str, mods_folder: &str, game_entries: &Vec<(String, EntryKind)>) -> (r: Result<Vec<Action>, OverlayError>)
    ensures
        match r {
            Ok(a) => prepare_plan(*libs, libs_dir@, *package, package_dir@, mods_folder@, listing_map(game_entries@)) == Ok::<Seq<ActionView>, OverlayError>(actions_view(a@)),
            Err(e) => prepare_plan(*libs, libs_dir@, *package, package_dir@, mods_folder@, listing_map(game_entries@)) == Err::<Seq<ActionView>, OverlayError>(e),
        },
{
    let loader = search_tree(libs, libs_dir, "d3d11.dll", false, SEARCH_DEPTH);
    let config = search_tree(package, package_dir, "d3dx.ini", false, SEARCH_DEPTH);
    let (config_dir, config_tree) = match config {
        Some((d, t)) => (d, t),
        None => {
            if loader.is_none() {
                return Err(OverlayError::RequiredArtifactMissing(RequiredArtifact::Loader));
            }
            return Err(OverlayError::RequiredArtifactMissing(RequiredArtifact::Config));
        },
    };
    if loader.is_none() {
        return Err(OverlayError::RequiredArtifactMissing(RequiredArtifact::Loader));
    }
    let compiler = search_tree(libs, libs_dir, "d3dcompiler_47.dll", false, SEARCH_DEPTH);
    let nvapi = search_tree(libs, libs_dir, "nvapi64.dll", false, SEARCH_DEPTH);
    let mut acts: Vec<Action> = Vec::new();
    assert(actions_view(acts@) =~= seq![]);
    push_copy(&mut acts, &loader, "d3d11.dll", "dxgi.dll");
    push_copy(&mut acts, &compiler, "d3dcompiler_47.dll", "d3dcompiler_47.dll");
    push_copy(&mut acts, &nvapi, "nvapi64.dll", "nvapi64.dll");
    let found_config = Some((config_dir.clone(), config_tree));
    push_copy(&mut acts, &found_config, "d3dx.ini", "d3dx.ini");
    push_link(&mut acts, game_entries, config_dir.as_str(), config_tree, "Core");
    push_link(&mut acts, game_entries, config_dir.as_str(), config_tree, "ShaderFixes");
    push_clear(&mut acts, game_entries, "Mods");
    let ghost mid = actions_view(acts@);
    acts.push(Action::CreateDirAll { path: mods_folder.to_string() });
    acts.push(Action::Symlink { target: mods_folder.to_string(), name: "Mods".to_string() });
    assert(actions_view(acts@) =~= mid.push(ActionView::CreateDirAll { path: mods_folder@ }).push(ActionView::Symlink { target: mods_folder@, name: "Mods"@ }));
    Ok(acts)
}

fn push_remove_file(acts: &mut Vec<Action>, listing: &Vec<(String, EntryKind)>, name: &str)
    ensures
        actions_view(final(acts)@) == remove_file_at(actions_view(old(acts)@), listing_map(listing@), name@),
{
    match kind_in(listing, name) {
        Some(EntryKind::File) | Some(EntryKind::Symlink) => {
            acts.push(Action::RemoveFile { name: name.to_string() });
            assert(actions_view(final(acts)@) =~= actions_view(old(acts)@).push(final(acts)@.last()@));
        },
        _ => {},
    }
}

fn push_unlink(acts: &mut Vec<Action>, listing: &Vec<(String, EntryKind)>, name: &str)
    ensures
        actions_view(final(acts)@) == unlink_at(actions_view(old(acts)@), listing_map(listing@), name@),
{
    match kind_in(listing, name) {
        Some(EntryKind::Symlink) => {
            acts.push(Action::RemoveFile { name: name.to_string() });
            assert(actions_view(final(acts)@) =~= actions_view(old(acts)@).push(final(acts)@.last()@));
        },
        _ => {},
    }
}

/// Plans the removal of the overlay from the game directory, given the
/// listing of its entries: the artifact files where present, and the
/// reserved folders only where they are links. Each removal stands alone,
/// so that one that fails does not keep the others from being tried.
pub fn cleanup_mods(game_entries: &Vec<(String, EntryKind)>) -> (r: Vec<Action>)
    ensures
        actions_view(r@) == cleanup_plan(listing_map(game_entries@)),
{
    let mut acts: Vec<Action> = Vec::new();
    assert(actions_view(acts@) =~= seq![]);
    push_remove_file(&mut acts, game_entries, "dxgi.dll");
    push_remove_file(&mut acts, game_entries, "d3dcompiler_47.dll");
    push_remove_file(&mut acts, game_entries, "nvapi64.dll");
    push_remove_file(&mut acts, game_entries, "d3dx.ini");
    push_remove_file(&mut acts, game_entries, "d3d11.dll");
    push_unlink(&mut acts, game_entries, "Core");
    push_unlink(&mut acts, game_entries, "ShaderFixes");
    push_unlink(&mut acts, game_entries, "Mods");
    acts
}


/// `n` is one of the artifact file names that cleanup removes.
pub open spec fn is_artifact_file(n: Seq<char>) -> bool {
    n == "dxgi.dll"@ || n == "d3dcompiler_47.dll"@ || n == "nvapi64.dll"@ || n == "d3dx.ini"@
        || n == "d3d11.dll"@
}

/// `n` is one of the folder names that the overlay links.
pub open spec fn is_reserved_folder(n: Seq<char>) -> bool {
    n == "Core"@ || n == "ShaderFixes"@ || n == "Mods"@
}

/// Cleanup takes the entry `n` of `m` out.
pub open spec fn cleanup_takes(m: DirState, n: Seq<char>) -> bool {
    (is_artifact_file(n) && m[n] != EntryKind::Dir) || (is_reserved_folder(n) && m[n]
        == EntryKind::Symlink)
}

/// Every entry of `m` is one that the overlay places.
pub open spec fn overlay_only(m: DirState) -> bool {
    forall|k: Seq<char>| #[trigger] m.contains_key(k) ==> cleanup_takes(m, k)
}

proof fn lemma_run_push(m: DirState, s: Seq<ActionView>, x: ActionView)
    ensures
        run(m, s.push(x)) == step(run(m, s), x),
{
    assert(s.push(x).drop_last() =~= s);
}

proof fn lemma_run_remove_file_at(m0: DirState, s: Seq<ActionView>, m: DirState, n: Seq<char>)
    ensures
        run(m0, remove_file_at(s, m, n)) == if m.contains_key(n) && m[n] != EntryKind::Dir {
            run(m0, s).remove(n)
        } else {
            run(m0, s)
        },
{
    if m.contains_key(n) && m[n] != EntryKind::Dir {
        lemma_run_push(m0, s, ActionView::RemoveFile { name: n });
    }
}

proof fn lemma_run_unlink_at(m0: DirState, s: Seq<ActionView>, m: DirState, n: Seq<char>)
    ensures
        run(m0, unlink_at(s, m, n)) == if m.contains_key(n) && m[n] == EntryKind::Symlink {
            run(m0, s).remove(n)
        } else {
            run(m0, s)
        },
{
    if m.contains_key(n) && m[n] == EntryKind::Symlink {
        lemma_run_push(m0, s, ActionView::RemoveFile { name: n });
    }
}

/// What running the cleanup plan leaves: exactly the entries that it does
/// not take, unchanged.
proof fn lemma_run_cleanup(m: DirState)
    ensures
        forall|k: Seq<char>|
            #[trigger] run(m, cleanup_plan(m)).contains_key(k) <==> (m.contains_key(k)
                && !cleanup_takes(m, k)),
        forall|k: Seq<char>|
            #[trigger] run(m, cleanup_plan(m)).contains_key(k) ==> run(m, cleanup_plan(m))[k]
                == m[k],
{
    let a0 = remove_file_at(seq![], m, "dxgi.dll"@);
    let a1 = remove_file_at(a0, m, "d3dcompiler_47.dll"@);
    let a2 = remove_file_at(a1, m, "nvapi64.dll"@);
    let a3 = remove_file_at(a2, m, "d3dx.ini"@);
    let a4 = remove_file_at(a3, m, "d3d11.dll"@);
    let a5 = unlink_at(a4, m, "Core"@);
    let a6 = unlink_at(a5, m, "ShaderFixes"@);
    assert(run(m, seq![]) == m);
    lemma_run_remove_file_at(m, seq![], m, "dxgi.dll"@);
    lemma_run_remove_file_at(m, a0, m, "d3dcompiler_47.dll"@);
    lemma_run_remove_file_at(m, a1, m, "nvapi64.dll"@);
    lemma_run_remove_file_at(m, a2, m, "d3dx.ini"@);
    lemma_run_remove_file_at(m, a3, m, "d3d11.dll"@);
    lemma_run_unlink_at(m, a4, m, "Core"@);
    lemma_run_unlink_at(m, a5, m, "ShaderFixes"@);
    lemma_run_unlink_at(m, a6, m, "Mods"@);
}

/// Cleanup never removes a real directory: an entry that is a directory
/// before cleanup is the same directory after it, whatever its name.
pub proof fn cleanup_keeps_directories(m: DirState, n: Seq<char>)
    requires
        m.contains_key(n),
        m[n] == EntryKind::Dir,
    ensures
        run(m, cleanup_plan(m)).contains_key(n),
        run(m, cleanup_plan(m))[n] == EntryKind::Dir,
{
    lemma_run_cleanup(m);
    assert(run(m, cleanup_plan(m)).contains_key(n));
}

proof fn lemma_copy_found_keeps(m0: DirState, s: Seq<ActionView>, hit: Option<(Seq<char>, Tree)>, file: Seq<char>, to: Seq<char>)
    requires
        overlay_only(run(m0, s)),
        is_artifact_file(to),
    ensures
        overlay_only(run(m0, copy_found(s, hit, file, to))),
{
    match hit {
        Some((d, _)) => {
            lemma_run_push(m0, s, ActionView::CopyFile { from: path_join(d, file), name: to });
            let m1 = run(m0, copy_found(s, hit, file, to));
            assert forall|k: Seq<char>| #[trigger] m1.contains_key(k) implies cleanup_takes(m1, k) by {
                if k != to {
                    assert(run(m0, s).contains_key(k));
                }
            }
        },
        None => {},
    }
}

proof fn lemma_link_folder_keeps(m0: DirState, s: Seq<ActionView>, config: (Seq<char>, Tree), name: Seq<char>)
    requires
        overlay_only(run(m0, s)),
        is_reserved_folder(name),
    ensures
        overlay_only(run(m0, link_folder(s, Map::empty(), config, name))),
{
    let a = clear_entry(s, Map::empty(), name);
    assert(a == s);
    if has_entry(config.1, name, true) {
        let x = ActionView::Symlink { target: path_join(config.0, name), name };
        lemma_run_push(m0, s, x);
        let m1 = run(m0, s.push(x));
        assert forall|k: Seq<char>| #[trigger] m1.contains_key(k) implies cleanup_takes(m1, k) by {
            if k != name {
                assert(run(m0, s).contains_key(k));
            }
        }
    }
}

/// Placing the overlay into an empty game directory and then taking it out
/// leaves the directory empty again: every entry that was placed is removed,
/// and no link, dangling or not, is left behind.
pub proof fn cleanup_undoes_prepare(libs: Tree, libs_dir: Seq<char>, package: Tree, package_dir: Seq<char>, mods: Seq<char>)
    requires
        prepare_plan(libs, libs_dir, package, package_dir, mods, Map::empty()) is Ok,
    ensures
        ({
            let placed = run(Map::empty(), prepare_plan(libs, libs_dir, package, package_dir, mods, Map::empty())->Ok_0);
            run(placed, cleanup_plan(placed)) == Map::<Seq<char>, EntryKind>::empty()
        }),
{
    let e = Map::<Seq<char>, EntryKind>::empty();
    let d = SEARCH_DEPTH as nat;
    let loader = search(libs, libs_dir, "d3d11.dll"@, false, d);
    let config = search(package, package_dir, "d3dx.ini"@, false, d);
    let a0 = copy_found(seq![], loader, "d3d11.dll"@, "dxgi.dll"@);
    let a1 = copy_found(a0, search(libs, libs_dir, "d3dcompiler_47.dll"@, false, d), "d3dcompiler_47.dll"@, "d3dcompiler_47.dll"@);
    let a2 = copy_found(a1, search(libs, libs_dir, "nvapi64.dll"@, false, d), "nvapi64.dll"@, "nvapi64.dll"@);
    let a3 = copy_found(a2, config, "d3dx.ini"@, "d3dx.ini"@);
    let a4 = link_folder(a3, e, config.unwrap(), "Core"@);
    let a5 = link_folder(a4, e, config.unwrap(), "ShaderFixes"@);
    let a6 = clear_entry(a5, e, "Mods"@);
    assert(a6 == a5);
    let x = ActionView::CreateDirAll { path: mods };
    let y = ActionView::Symlink { target: mods, name: "Mods"@ };
    assert(run(e, seq![]) == e);
    assert(overlay_only(e));
    lemma_copy_found_keeps(e, seq![], loader, "d3d11.dll"@, "dxgi.dll"@);
    lemma_copy_found_keeps(e, a0, search(libs, libs_dir, "d3dcompiler_47.dll"@, false, d), "d3dcompiler_47.dll"@, "d3dcompiler_47.dll"@);
    lemma_copy_found_keeps(e, a1, search(libs, libs_dir, "nvapi64.dll"@, false, d), "nvapi64.dll"@, "nvapi64.dll"@);
    lemma_copy_found_keeps(e, a2, config, "d3dx.ini"@, "d3dx.ini"@);
    lemma_link_folder_keeps(e, a3, config.unwrap(), "Core"@);
    lemma_link_folder_keeps(e, a4, config.unwrap(), "ShaderFixes"@);
    lemma_run_push(e, a6, x);
    lemma_run_push(e, a6.push(x), y);
    let placed = run(e, a6.push(x).push(y));
    assert forall|k: Seq<char>| #[trigger] placed.contains_key(k) implies cleanup_takes(placed, k) by {
        if k != "Mods"@ {
            assert(run(e, a6).contains_key(k));
        }
    }
    lemma_run_cleanup(placed);
    assert(run(placed, cleanup_plan(placed)) =~= e);
}

} // verus!
