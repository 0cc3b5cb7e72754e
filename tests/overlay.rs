use anime_game_core::overlay::{
    cleanup_mods, find_dir_recursive, find_file_recursive, prepare_mods, Action, EntryKind, Node,
    OverlayError, RequiredArtifact, Tree,
};

fn file(name: &str) -> Node {
    Node { name: name.to_string(), kind: EntryKind::File, children: Tree { entries: vec![] } }
}

fn dir(name: &str, entries: Vec<Node>) -> Node {
    Node { name: name.to_string(), kind: EntryKind::Dir, children: Tree { entries } }
}

fn libs() -> Tree {
    Tree { entries: vec![file("readme.md"), dir("x64", vec![file("d3d11.dll"), file("d3dcompiler_47.dll")])] }
}

fn package() -> Tree {
    Tree { entries: vec![dir("ZZMI", vec![file("d3dx.ini"), dir("Core", vec![]), dir("ShaderFixes", vec![])])] }
}

fn names(entries: &[(String, EntryKind)]) -> Vec<String> {
    entries.iter().map(|e| e.0.clone()).collect()
}

/// Runs a plan against a listing of the game directory.
fn apply(listing: &mut Vec<(String, EntryKind)>, plan: &[Action]) {
    for a in plan {
        match a {
            Action::CopyFile { name, .. } => {
                listing.retain(|e| &e.0 != name);
                listing.push((name.clone(), EntryKind::File));
            }
            Action::RemoveFile { name } | Action::RemoveDirAll { name } => listing.retain(|e| &e.0 != name),
            Action::CreateDirAll { .. } => {}
            Action::Symlink { name, .. } => {
                listing.retain(|e| &e.0 != name);
                listing.push((name.clone(), EntryKind::Symlink));
            }
        }
    }
}

#[test]
fn finds_files_and_dirs_below_root() {
    let t = libs();
    assert_eq!(find_file_recursive(&t, "/p", "d3d11.dll").as_deref(), Some("/p/x64/d3d11.dll"));
    assert_eq!(find_file_recursive(&t, "/p", "readme.md").as_deref(), Some("/p/readme.md"));
    assert_eq!(find_file_recursive(&t, "/p", "nvapi64.dll"), None);
    assert_eq!(find_dir_recursive(&package(), "/z", "Core").as_deref(), Some("/z/ZZMI/Core"));
    assert_eq!(find_dir_recursive(&package(), "/z", "d3dx.ini"), None);
}

#[test]
fn prepare_plans_copies_and_links() {
    let plan = prepare_mods(&libs(), "/p", &package(), "/z", "/m", &vec![]).unwrap();
    assert_eq!(plan.len(), 7);
    assert!(matches!(&plan[0], Action::CopyFile { from, name } if from == "/p/x64/d3d11.dll" && name == "dxgi.dll"));
    assert!(matches!(&plan[1], Action::CopyFile { name, .. } if name == "d3dcompiler_47.dll"));
    assert!(matches!(&plan[2], Action::CopyFile { from, name } if from == "/z/ZZMI/d3dx.ini" && name == "d3dx.ini"));
    assert!(matches!(&plan[3], Action::Symlink { target, name } if target == "/z/ZZMI/Core" && name == "Core"));
    assert!(matches!(&plan[4], Action::Symlink { name, .. } if name == "ShaderFixes"));
    assert!(matches!(&plan[5], Action::CreateDirAll { path } if path == "/m"));
    assert!(matches!(&plan[6], Action::Symlink { target, name } if target == "/m" && name == "Mods"));
}

#[test]
fn prepare_clears_occupied_folders() {
    let game = vec![("Mods".to_string(), EntryKind::Dir), ("Core".to_string(), EntryKind::Symlink)];
    let plan = prepare_mods(&libs(), "/p", &package(), "/z", "/m", &game).unwrap();
    assert!(plan.iter().any(|a| matches!(a, Action::RemoveDirAll { name } if name == "Mods")));
    assert!(plan.iter().any(|a| matches!(a, Action::RemoveFile { name } if name == "Core")));
}

#[test]
fn missing_required_artifacts_abort() {
    let empty = Tree { entries: vec![] };
    let r = prepare_mods(&empty, "/p", &package(), "/z", "/m", &vec![]);
    assert_eq!(r.unwrap_err(), OverlayError::RequiredArtifactMissing(RequiredArtifact::Loader));
    let r = prepare_mods(&libs(), "/p", &empty, "/z", "/m", &vec![]);
    assert_eq!(r.unwrap_err(), OverlayError::RequiredArtifactMissing(RequiredArtifact::Config));
}

#[test]
fn cleanup_after_prepare_leaves_empty_dir() {
    let mut game: Vec<(String, EntryKind)> = vec![];
    let plan = prepare_mods(&libs(), "/p", &package(), "/z", "/m", &game).unwrap();
    apply(&mut game, &plan);
    assert_eq!(names(&game).len(), 6);
    let undo = cleanup_mods(&game);
    apply(&mut game, &undo);
    assert!(game.is_empty());
}

#[test]
fn cleanup_keeps_real_directories() {
    let game = vec![
        ("Mods".to_string(), EntryKind::Dir),
        ("Core".to_string(), EntryKind::Symlink),
        ("dxgi.dll".to_string(), EntryKind::File),
        ("game.exe".to_string(), EntryKind::File),
    ];
    let plan = cleanup_mods(&game);
    assert_eq!(plan.len(), 2);
    assert!(!plan.iter().any(|a| matches!(a, Action::RemoveFile { name } | Action::RemoveDirAll { name } if name == "Mods" || name == "game.exe")));
}
