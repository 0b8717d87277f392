//! Materializer behaviour on the model filesystem, one case per outcome.

use confshelf::descriptor::LinkDescriptor;
use confshelf::fs_model::{FilesystemState, FsKind, ModelFs, ModelNode};
use confshelf::materializer::materialize_on_model;
use confshelf::outcome::MaterializationOutcome;

fn file(fs: &mut ModelFs, p: &str) {
    fs.set_node(&p.to_string(), ModelNode::RegularFileOrOther);
}

fn dir(fs: &mut ModelFs, p: &str) {
    fs.set_node(&p.to_string(), ModelNode::Directory);
}

fn link(fs: &mut ModelFs, p: &str, t: &str) {
    fs.set_node(&p.to_string(), ModelNode::Symlink(t.to_string()));
}

fn descriptor(symlink: &str, target: &str) -> LinkDescriptor {
    LinkDescriptor::new(symlink.to_string(), target.to_string())
}

#[test]
fn create_link_new_symlink() {
    let mut fs = ModelFs::new();
    file(&mut fs, "test_dir/just_regular_file");
    let d = descriptor("test_dir/new_symlink", "test_dir/just_regular_file");
    let o = materialize_on_model(&mut fs, &d, false);
    assert!(matches!(o, MaterializationOutcome::Success));
    assert_eq!(
        fs.link_target(&"test_dir/new_symlink".to_string()),
        Some("test_dir/just_regular_file".to_string())
    );
}

#[test]
fn create_link_replace_symlink() {
    let mut fs = ModelFs::new();
    file(&mut fs, "test_dir/just_regular_file");
    link(
        &mut fs,
        "test_dir/just_symbolic_link",
        "test_dir/just_regular_file",
    );
    file(&mut fs, "test_dir/new_target_file");
    let d = descriptor("test_dir/just_symbolic_link", "test_dir/new_target_file");
    let o = materialize_on_model(&mut fs, &d, false);
    assert!(matches!(o, MaterializationOutcome::Success));
    assert_eq!(
        fs.link_target(&"test_dir/just_symbolic_link".to_string()),
        Some("test_dir/new_target_file".to_string())
    );
}

#[test]
fn create_link_target_not_exists() {
    let mut fs = ModelFs::new();
    let d = descriptor("this_is_symlink", "foobar");
    let o = materialize_on_model(&mut fs, &d, false);
    assert!(matches!(o, MaterializationOutcome::TargetMissing));
    assert_eq!(o.error_message().unwrap(), "Target file not exists");
    assert!(!fs.contains(&"this_is_symlink".to_string()));
    assert!(!fs.contains(&"foobar".to_string()));
}

#[test]
fn create_link_symlink_is_dir() {
    let mut fs = ModelFs::new();
    file(&mut fs, "test_dir/just_regular_file");
    dir(&mut fs, "test_dir/foo_dir");
    let d = descriptor("test_dir/foo_dir", "test_dir/just_regular_file");
    let o = materialize_on_model(&mut fs, &d, false);
    assert!(matches!(o, MaterializationOutcome::SymlinkIsDirectory));
    assert_eq!(o.error_message().unwrap(), "Symlink path is a directory");
    assert_eq!(fs.kind_at(&"test_dir/foo_dir".to_string()), FsKind::Directory);
}

#[test]
fn create_link_symlink_is_regular_file() {
    let mut fs = ModelFs::new();
    file(&mut fs, "test_dir/just_regular_file");
    file(&mut fs, "test_dir/foo_file");
    let d = descriptor("test_dir/foo_file", "test_dir/just_regular_file");
    let o = materialize_on_model(&mut fs, &d, false);
    assert!(matches!(o, MaterializationOutcome::SymlinkIsAmbiguous));
    assert_eq!(
        o.error_message().unwrap(),
        "Symlink path is not either directory or symbolic link"
    );
    assert_eq!(
        fs.kind_at(&"test_dir/foo_file".to_string()),
        FsKind::RegularFileOrOther
    );
}

#[test]
fn forced_overwrite_replaces_regular_file() {
    let mut fs = ModelFs::new();
    file(&mut fs, "target");
    file(&mut fs, "conflicting");
    let d = descriptor("conflicting", "target");
    let o = materialize_on_model(&mut fs, &d, true);
    assert!(matches!(o, MaterializationOutcome::Success));
    assert_eq!(
        fs.link_target(&"conflicting".to_string()),
        Some("target".to_string())
    );
}

#[test]
fn missing_target_reported_before_conflict() {
    // The target check comes first even when the symlink path also conflicts.
    let mut fs = ModelFs::new();
    file(&mut fs, "occupied");
    let d = descriptor("occupied", "nowhere");
    let o = materialize_on_model(&mut fs, &d, false);
    assert!(matches!(o, MaterializationOutcome::TargetMissing));
    assert_eq!(
        fs.kind_at(&"occupied".to_string()),
        FsKind::RegularFileOrOther
    );
}

#[test]
fn unreadable_symlink_path_is_io_failure() {
    let mut fs = ModelFs::new();
    file(&mut fs, "target");
    file(&mut fs, "shaky");
    fs.mark_broken(&"shaky".to_string());
    let d = descriptor("shaky", "target");
    let o = materialize_on_model(&mut fs, &d, false);
    assert!(matches!(o, MaterializationOutcome::IOFailure(_)));
    assert_eq!(
        o.error_message().unwrap(),
        "IO error: Failed to retrieve metadata: PermissionDenied"
    );
}

#[test]
fn dangling_symlink_still_replaced() {
    // A symbolic link pointing anywhere — even at nothing — is replaced.
    let mut fs = ModelFs::new();
    file(&mut fs, "target");
    link(&mut fs, "old_link", "vanished");
    let d = descriptor("old_link", "target");
    let o = materialize_on_model(&mut fs, &d, false);
    assert!(matches!(o, MaterializationOutcome::Success));
    assert_eq!(fs.link_target(&"old_link".to_string()), Some("target".to_string()));
}

#[test]
fn prober_reports_each_state() {
    let mut fs = ModelFs::new();
    file(&mut fs, "a_file");
    dir(&mut fs, "a_dir");
    link(&mut fs, "a_link", "a_file");
    assert_eq!(fs.probe(&"a_file".to_string()), FilesystemState::RegularFileOrOther);
    assert_eq!(fs.probe(&"a_dir".to_string()), FilesystemState::Directory);
    assert_eq!(fs.probe(&"a_link".to_string()), FilesystemState::Symlink);
    assert_eq!(fs.probe(&"nowhere".to_string()), FilesystemState::Absent);
}
