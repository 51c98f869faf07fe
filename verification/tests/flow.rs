use repo_open::flow::{resolve_editor, Action, Event, Failure, Session};
use repo_open::urls::ConvertError;

fn b(s: &str) -> Vec<u8> {
    s.as_bytes().to_vec()
}

#[test]
fn override_name_is_used_verbatim() {
    let s = Session::new(b("https://github.com/user/repo.git"), Some(b("my-dir"))).unwrap();
    assert_eq!(s.target_name, b("my-dir"));
}

#[test]
fn override_name_wins_over_any_url() {
    let s = Session::new(b(""), Some(b("kept.git"))).unwrap();
    assert_eq!(s.target_name, b("kept.git"));
}

#[test]
fn derived_name_is_used_without_override() {
    let s = Session::new(b("https://github.com/user/repo.git"), None).unwrap();
    assert_eq!(s.target_name, b("repo"));
}

#[test]
fn unusable_url_without_override_is_an_error() {
    assert!(Session::new(b("path/to/.git"), None).is_err());
}

#[test]
fn existing_directory_skips_clone() {
    let mut s = Session::new(b("https://github.com/user/repo.git"), None).unwrap();
    let a = s.step(Event::ExistsChecked { exists: true });
    assert_eq!(a, Action::RunEditor);
    let a = s.step(Event::EditorFinished);
    assert_eq!(a, Action::Finished);
    // the session is over: it waits for nothing more
    assert!(!s.accepts(&Event::ExistsChecked { exists: true }));
    assert!(!s.accepts(&Event::CloneFinished { error: None }));
    assert!(!s.accepts(&Event::EditorFinished));
}

#[test]
fn fresh_clone_success_opens_editor_once() {
    let url = b("https://github.com/user/repo.git");
    let mut s = Session::new(url.clone(), None).unwrap();
    let a = s.step(Event::ExistsChecked { exists: false });
    assert_eq!(a, Action::RunClone { url });
    let a = s.step(Event::CloneFinished { error: None });
    assert_eq!(a, Action::RunEditor);
    let a = s.step(Event::EditorFinished);
    assert_eq!(a, Action::Finished);
    assert!(!s.accepts(&Event::EditorFinished));
}

#[test]
fn failed_clone_retries_with_alternative_then_opens_editor() {
    let url = b("git@github.com:user/repo.git");
    let mut s = Session::new(url.clone(), None).unwrap();
    let a = s.step(Event::ExistsChecked { exists: false });
    assert_eq!(a, Action::RunClone { url });
    let a = s.step(Event::CloneFinished { error: Some(b("auth failed")) });
    assert_eq!(a, Action::RunClone { url: b("https://github.com/user/repo.git") });
    let a = s.step(Event::CloneFinished { error: None });
    assert_eq!(a, Action::RunEditor);
    let a = s.step(Event::EditorFinished);
    assert_eq!(a, Action::Finished);
}

#[test]
fn both_clones_failing_never_opens_editor() {
    let url = b("https://github.com/user/repo.git");
    let mut s = Session::new(url.clone(), None).unwrap();
    let a = s.step(Event::ExistsChecked { exists: false });
    assert_eq!(a, Action::RunClone { url });
    let a = s.step(Event::CloneFinished { error: Some(b("timeout")) });
    assert_eq!(a, Action::RunClone { url: b("git@github.com:user/repo.git") });
    let a = s.step(Event::CloneFinished { error: Some(b("refused")) });
    assert_eq!(
        a,
        Action::Report {
            failure: Failure::RetryFailed {
                first_error: b("timeout"),
                second_error: b("refused"),
            },
        }
    );
    // terminal: no event is accepted, so the editor can never be launched
    assert!(!s.accepts(&Event::EditorFinished));
    assert!(!s.accepts(&Event::CloneFinished { error: None }));
}

#[test]
fn clone_failure_without_alternative_reports_the_reason() {
    let url = b("ftp://example.com/repo.git");
    let mut s = Session::new(url.clone(), None).unwrap();
    let a = s.step(Event::ExistsChecked { exists: false });
    assert_eq!(a, Action::RunClone { url });
    let a = s.step(Event::CloneFinished { error: Some(b("not found")) });
    assert_eq!(
        a,
        Action::Report {
            failure: Failure::NoAlternativeUrl {
                first_error: b("not found"),
                reason: ConvertError::UnsupportedFormat,
            },
        }
    );
    assert!(!s.accepts(&Event::EditorFinished));
}

#[test]
fn editor_alternative_changes_the_command() {
    assert_eq!(resolve_editor(None), b("code"));
    assert_eq!(resolve_editor(Some(b("vim"))), b("vim"));
    assert_eq!(resolve_editor(Some(b("subl"))), b("subl"));
}
