//! Diagnostic lines, the confirmation gate's parsing, and the self-update
//! stub.

use confshelf::answer::{parse_answer, Answer};
use confshelf::outcome::{IoDetail, MaterializationOutcome};
use confshelf::recipe::{script_failure_message, Recipe, RecipeLoadError};
use confshelf::selfupdate;

#[test]
fn io_failure_message_with_os_code() {
    let o = MaterializationOutcome::IOFailure(IoDetail {
        operation: "Failed to remove symlink path".to_string(),
        kind_name: "NotFound".to_string(),
        os_code: Some(2),
    });
    assert_eq!(
        o.error_message().unwrap(),
        "IO error: Failed to remove symlink path: NotFound (OS error: 2)"
    );
}

#[test]
fn io_failure_message_without_os_code() {
    let o = MaterializationOutcome::IOFailure(IoDetail {
        operation: "Failed to create symlink".to_string(),
        kind_name: "PermissionDenied".to_string(),
        os_code: None,
    });
    assert_eq!(
        o.error_message().unwrap(),
        "IO error: Failed to create symlink: PermissionDenied"
    );
}

#[test]
fn io_failure_message_negative_and_zero_codes() {
    let o = MaterializationOutcome::IOFailure(IoDetail {
        operation: "Failed to create symlink".to_string(),
        kind_name: "Other".to_string(),
        os_code: Some(-17),
    });
    assert_eq!(
        o.error_message().unwrap(),
        "IO error: Failed to create symlink: Other (OS error: -17)"
    );
    let z = MaterializationOutcome::IOFailure(IoDetail {
        operation: "Failed to create symlink".to_string(),
        kind_name: "Other".to_string(),
        os_code: Some(0),
    });
    assert_eq!(
        z.error_message().unwrap(),
        "IO error: Failed to create symlink: Other (OS error: 0)"
    );
}

#[test]
fn io_failure_message_large_code() {
    let o = MaterializationOutcome::IOFailure(IoDetail {
        operation: "Failed to retrieve metadata".to_string(),
        kind_name: "Other".to_string(),
        os_code: Some(1234567890),
    });
    assert_eq!(
        o.error_message().unwrap(),
        "IO error: Failed to retrieve metadata: Other (OS error: 1234567890)"
    );
}

#[test]
fn success_carries_no_message() {
    assert_eq!(MaterializationOutcome::Success.error_message(), None);
}

#[test]
fn recipe_load_error_messages() {
    let fmt = RecipeLoadError::Format("missing field `links`".to_string());
    assert_eq!(fmt.message(), "Recipe format error: missing field `links`");
    let io = RecipeLoadError::Io(IoDetail {
        operation: "Cannot open recipe file".to_string(),
        kind_name: "NotFound".to_string(),
        os_code: Some(2),
    });
    assert_eq!(
        io.message(),
        "IO error: Cannot open recipe file: NotFound (OS error: 2)"
    );
}

#[test]
fn script_failure_messages() {
    assert_eq!(script_failure_message(true, Some(0)), None);
    assert_eq!(script_failure_message(true, None), None);
    assert_eq!(
        script_failure_message(false, Some(3)).unwrap(),
        "Process exited with code 3"
    );
    assert_eq!(
        script_failure_message(false, None).unwrap(),
        "Process terminated by signal"
    );
}

#[test]
fn gate_accepts_yes_in_any_case() {
    assert_eq!(parse_answer("y"), Answer::Yes);
    assert_eq!(parse_answer("y\n"), Answer::Yes);
    assert_eq!(parse_answer("Y\r\n"), Answer::Yes);
    assert_eq!(parse_answer("yes"), Answer::Yes);
    assert_eq!(parse_answer("YES\n"), Answer::Yes);
    assert_eq!(parse_answer("  yEs \t\n"), Answer::Yes);
}

#[test]
fn gate_trims_every_unicode_white_space() {
    // The same characters `str::trim` strips: an ASCII vertical tab or form
    // feed, a no-break space, a typeset space, the line separator, the
    // narrow no-break space, the ideographic space.
    assert_eq!(parse_answer("y\u{000B}"), Answer::Yes);
    assert_eq!(parse_answer("y\u{000C}"), Answer::Yes);
    assert_eq!(parse_answer("\u{00A0}yes\u{00A0}"), Answer::Yes);
    assert_eq!(parse_answer("\u{2003}Y\u{2009}"), Answer::Yes);
    assert_eq!(parse_answer("yes\u{2028}"), Answer::Yes);
    assert_eq!(parse_answer("\u{202F}y\u{0085}"), Answer::Yes);
    assert_eq!(parse_answer("\u{3000}YES\u{1680}\u{205F}"), Answer::Yes);
}

#[test]
fn gate_strips_only_white_space() {
    // A zero-width space is not white space: it is kept, so the line no
    // longer spells "y".
    assert_eq!(parse_answer("y\u{200B}"), Answer::No);
    assert_eq!(parse_answer("\u{200B}yes"), Answer::No);
}

#[test]
fn gate_refuses_everything_else() {
    assert_eq!(parse_answer(""), Answer::No);
    assert_eq!(parse_answer("\n"), Answer::No);
    assert_eq!(parse_answer("n"), Answer::No);
    assert_eq!(parse_answer("no"), Answer::No);
    assert_eq!(parse_answer("ye"), Answer::No);
    assert_eq!(parse_answer("yess"), Answer::No);
    assert_eq!(parse_answer("y es"), Answer::No);
    assert_eq!(parse_answer("oui"), Answer::No);
}

#[test]
fn recipe_holds_script_and_links() {
    let r = Recipe {
        script_on_setup: Some("./after.sh".to_string()),
        links: Vec::new(),
    };
    assert_eq!(r.script_on_setup.as_deref(), Some("./after.sh"));
    assert!(r.links.is_empty());
}

#[test]
fn selfupdate_reports_nothing_done() {
    assert!(!selfupdate());
}
