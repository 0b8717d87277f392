//! Whole queue runs on the model filesystem: the confirmation flow and
//! failure isolation.

use confshelf::answer::Answer;
use confshelf::descriptor::LinkDescriptor;
use confshelf::fs_model::{FsKind, ModelFs, ModelNode};
use confshelf::outcome::MaterializationOutcome;
use confshelf::queue::run_queue_on_model;

fn descriptor(symlink: &str, target: &str) -> LinkDescriptor {
    LinkDescriptor::new(symlink.to_string(), target.to_string())
}

#[test]
fn ambiguous_conflict_approved_overwrites() {
    let mut fs = ModelFs::new();
    fs.set_node(&"target".to_string(), ModelNode::RegularFileOrOther);
    fs.set_node(&"link_path".to_string(), ModelNode::RegularFileOrOther);
    let links = vec![descriptor("link_path", "target")];
    let answers = vec![Answer::Yes];
    let records = run_queue_on_model(&mut fs, &links, &answers);
    assert_eq!(records.len(), 2);
    assert!(matches!(
        records[0].outcome,
        MaterializationOutcome::SymlinkIsAmbiguous
    ));
    assert_eq!(records[0].answer, Some(Answer::Yes));
    assert!(!records[0].forced);
    assert!(records[1].forced);
    assert!(matches!(records[1].outcome, MaterializationOutcome::Success));
    assert_eq!(
        fs.link_target(&"link_path".to_string()),
        Some("target".to_string())
    );
}

#[test]
fn ambiguous_conflict_refused_leaves_file() {
    let mut fs = ModelFs::new();
    fs.set_node(&"target".to_string(), ModelNode::RegularFileOrOther);
    fs.set_node(&"link_path".to_string(), ModelNode::RegularFileOrOther);
    let links = vec![descriptor("link_path", "target")];
    let answers = vec![Answer::No];
    let records = run_queue_on_model(&mut fs, &links, &answers);
    assert_eq!(records.len(), 1);
    assert!(matches!(
        records[0].outcome,
        MaterializationOutcome::SymlinkIsAmbiguous
    ));
    assert_eq!(records[0].answer, Some(Answer::No));
    assert_eq!(
        fs.kind_at(&"link_path".to_string()),
        FsKind::RegularFileOrOther
    );
    assert_eq!(fs.link_target(&"link_path".to_string()), None);
}

#[test]
fn exhausted_answers_count_as_refusal() {
    let mut fs = ModelFs::new();
    fs.set_node(&"target".to_string(), ModelNode::RegularFileOrOther);
    fs.set_node(&"link_path".to_string(), ModelNode::RegularFileOrOther);
    let links = vec![descriptor("link_path", "target")];
    let answers: Vec<Answer> = vec![];
    let records = run_queue_on_model(&mut fs, &links, &answers);
    assert_eq!(records.len(), 1);
    assert_eq!(records[0].answer, Some(Answer::No));
    assert_eq!(
        fs.kind_at(&"link_path".to_string()),
        FsKind::RegularFileOrOther
    );
}

#[test]
fn first_failure_does_not_stop_the_rest() {
    let mut fs = ModelFs::new();
    fs.set_node(&"target".to_string(), ModelNode::RegularFileOrOther);
    fs.set_node(&"shaky".to_string(), ModelNode::RegularFileOrOther);
    fs.mark_broken(&"shaky".to_string());
    let links = vec![
        descriptor("shaky", "target"),
        descriptor("second", "target"),
        descriptor("third", "target"),
    ];
    let answers: Vec<Answer> = vec![];
    let records = run_queue_on_model(&mut fs, &links, &answers);
    assert_eq!(records.len(), 3);
    assert!(matches!(
        records[0].outcome,
        MaterializationOutcome::IOFailure(_)
    ));
    assert!(matches!(records[1].outcome, MaterializationOutcome::Success));
    assert!(matches!(records[2].outcome, MaterializationOutcome::Success));
    assert_eq!(fs.link_target(&"second".to_string()), Some("target".to_string()));
    assert_eq!(fs.link_target(&"third".to_string()), Some("target".to_string()));
}

#[test]
fn recipe_order_is_kept() {
    let mut fs = ModelFs::new();
    fs.set_node(&"target".to_string(), ModelNode::RegularFileOrOther);
    let links = vec![
        descriptor("a", "target"),
        descriptor("b", "target"),
        descriptor("missing", "nowhere"),
        descriptor("c", "target"),
    ];
    let answers: Vec<Answer> = vec![];
    let records = run_queue_on_model(&mut fs, &links, &answers);
    assert_eq!(records.len(), 4);
    assert_eq!(records[0].link.symlink_path, "a");
    assert_eq!(records[1].link.symlink_path, "b");
    assert_eq!(records[2].link.symlink_path, "missing");
    assert!(matches!(
        records[2].outcome,
        MaterializationOutcome::TargetMissing
    ));
    assert_eq!(records[3].link.symlink_path, "c");
    assert!(matches!(records[3].outcome, MaterializationOutcome::Success));
}

#[test]
fn duplicate_descriptors_processed_independently() {
    let mut fs = ModelFs::new();
    fs.set_node(&"target".to_string(), ModelNode::RegularFileOrOther);
    let links = vec![descriptor("same", "target"), descriptor("same", "target")];
    let answers: Vec<Answer> = vec![];
    let records = run_queue_on_model(&mut fs, &links, &answers);
    assert_eq!(records.len(), 2);
    assert!(matches!(records[0].outcome, MaterializationOutcome::Success));
    assert!(matches!(records[1].outcome, MaterializationOutcome::Success));
    assert_eq!(fs.link_target(&"same".to_string()), Some("target".to_string()));
}
