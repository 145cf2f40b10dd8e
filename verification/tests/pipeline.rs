use flypy_sync::entry::UserDict;
use flypy_sync::failure::Failure;
use flypy_sync::pipeline::{
    Action, BackupStep, Event, Stage, SyncRun, EXIT_FAILURE, EXIT_SUCCESS, STATUS_OK,
};

const PAGE: &str = "https://example.org/blob/main/flypy_user.txt";

fn page_of(texts: &[&str]) -> String {
    let mut body = String::new();
    for (index, text) in texts.iter().enumerate() {
        body.push_str(&format!(
            "<td id=\"LC{}\" class=\"blob-code blob-code-inner js-file-line\">{}</td>\n",
            index + 1,
            text
        ));
    }
    body
}

fn answered(status: u16, body: &str) -> Event {
    Event::Response { status, body: body.to_string() }
}

fn run_at_probing(texts: &[&str]) -> SyncRun {
    let mut run = SyncRun::new(PAGE.to_string());
    run.begin();
    run.step(answered(200, &page_of(texts)));
    assert_eq!(run.stage(), Stage::BackingUp(BackupStep::Probing));
    run
}

fn run_at_writing(texts: &[&str]) -> SyncRun {
    let mut run = run_at_probing(texts);
    run.step(Event::BackupProbed { exists: true });
    assert_eq!(run.stage(), Stage::Writing);
    run
}

fn is_fetch(action: &Action, expected: &str) -> bool {
    matches!(action, Action::Fetch { url } if url == expected)
}

fn is_exit(action: &Action, expected_code: i32, expected: &[&str]) -> bool {
    match action {
        Action::Exit { code, messages } => {
            *code == expected_code && messages.iter().map(String::as_str).eq(expected.iter().copied())
        }
        _ => false,
    }
}

fn hint_for_page() -> [&'static str; 2] {
    [
        "请求失败: https://example.org/blob/main/flypy_user.txt，请检查路径是否正确",
        "例如: https://github.com/FengYouJun520/flypy_user/blob/main/flypy_user.txt",
    ]
}

#[test]
fn constants_of_the_run() {
    assert_eq!(STATUS_OK, 200);
    assert_eq!(EXIT_SUCCESS, 0);
    assert_eq!(EXIT_FAILURE, 1);
}

#[test]
fn new_run_is_at_start() {
    let run = SyncRun::new(PAGE.to_string());
    assert_eq!(run.stage(), Stage::Start);
    assert_eq!(run.url(), PAGE);
    assert!(run.entries().is_empty());
    assert!(is_fetch(&run.pending(), PAGE));
}

#[test]
fn begin_asks_for_the_page() {
    let mut run = SyncRun::new(PAGE.to_string());
    let action = run.begin();
    assert!(is_fetch(&action, PAGE));
    assert_eq!(run.stage(), Stage::Fetching);
}

#[test]
fn begin_twice_changes_nothing_more() {
    let mut run = SyncRun::new(PAGE.to_string());
    run.begin();
    let action = run.begin();
    assert!(is_fetch(&action, PAGE));
    assert_eq!(run.stage(), Stage::Fetching);
    let mut later = run_at_writing(&["a 1"]);
    assert!(matches!(later.begin(), Action::Append { .. }));
    assert_eq!(later.stage(), Stage::Writing);
}

#[test]
fn events_before_begin_are_ignored() {
    let mut run = SyncRun::new(PAGE.to_string());
    for event in [
        answered(200, &page_of(&["a 1"])),
        Event::BackupProbed { exists: true },
        Event::Completed,
        Event::Failed,
    ] {
        assert!(is_fetch(&run.step(event), PAGE));
        assert_eq!(run.stage(), Stage::Start);
    }
}

#[test]
fn good_response_leads_to_the_backup_probe() {
    let mut run = SyncRun::new(PAGE.to_string());
    run.begin();
    let action = run.step(answered(200, &page_of(&["a  1", "你好\tnihk"])));
    assert!(matches!(action, Action::ProbeBackup));
    assert_eq!(run.stage(), Stage::BackingUp(BackupStep::Probing));
    assert_eq!(
        *run.entries(),
        vec![
            UserDict::new("a".to_string(), "1".to_string()),
            UserDict::new("你好".to_string(), "nihk".to_string()),
        ]
    );
}

#[test]
fn status_404_fails_the_run_with_the_hint() {
    let mut run = SyncRun::new(PAGE.to_string());
    run.begin();
    let action = run.step(answered(404, "Not Found"));
    assert!(is_exit(&action, 1, &hint_for_page()));
    assert_eq!(run.stage(), Stage::Failed(Failure::RemoteUnavailable));
    assert!(run.entries().is_empty());
}

#[test]
fn every_status_but_200_fails_the_run() {
    for status in [0u16, 100, 199, 201, 204, 301, 302, 400, 403, 404, 500, 503, 999, u16::MAX] {
        let mut run = SyncRun::new(PAGE.to_string());
        run.begin();
        let action = run.step(answered(status, &page_of(&["a 1"])));
        assert!(is_exit(&action, 1, &hint_for_page()), "status {}", status);
        assert_eq!(run.stage(), Stage::Failed(Failure::RemoteUnavailable));
    }
}

#[test]
fn transport_failure_fails_the_run_with_the_hint() {
    let mut run = SyncRun::new(PAGE.to_string());
    run.begin();
    let action = run.step(Event::Failed);
    assert!(is_exit(&action, 1, &hint_for_page()));
    assert_eq!(run.stage(), Stage::Failed(Failure::RemoteUnavailable));
}

#[test]
fn fetching_ignores_what_it_did_not_ask_for() {
    let mut run = SyncRun::new(PAGE.to_string());
    run.begin();
    assert!(is_fetch(&run.step(Event::Completed), PAGE));
    assert!(is_fetch(&run.step(Event::BackupProbed { exists: false }), PAGE));
    assert_eq!(run.stage(), Stage::Fetching);
}

#[test]
fn existing_backup_is_left_alone() {
    let mut run = run_at_probing(&["a 1"]);
    let action = run.step(Event::BackupProbed { exists: true });
    assert!(matches!(action, Action::Append { .. }));
    assert_eq!(run.stage(), Stage::Writing);
}

#[test]
fn missing_backup_is_copied_first() {
    let mut run = run_at_probing(&["a 1"]);
    let action = run.step(Event::BackupProbed { exists: false });
    assert!(matches!(action, Action::CopyBackup));
    assert_eq!(run.stage(), Stage::BackingUp(BackupStep::Copying));
    let action = run.step(Event::Completed);
    assert!(matches!(action, Action::Append { .. }));
    assert_eq!(run.stage(), Stage::Writing);
}

#[test]
fn failed_copy_fails_the_run() {
    let mut run = run_at_probing(&["a 1"]);
    run.step(Event::BackupProbed { exists: false });
    let action = run.step(Event::Failed);
    assert!(is_exit(&action, 1, &[]));
    assert_eq!(run.stage(), Stage::Failed(Failure::BackupFailed));
}

#[test]
fn probing_ignores_what_it_did_not_ask_for() {
    let mut run = run_at_probing(&["a 1"]);
    assert!(matches!(run.step(Event::Completed), Action::ProbeBackup));
    assert!(matches!(run.step(Event::Failed), Action::ProbeBackup));
    assert!(matches!(run.step(answered(200, "")), Action::ProbeBackup));
    assert_eq!(run.stage(), Stage::BackingUp(BackupStep::Probing));
    assert_eq!(run.entries().len(), 1);
}

#[test]
fn copying_ignores_what_it_did_not_ask_for() {
    let mut run = run_at_probing(&["a 1"]);
    run.step(Event::BackupProbed { exists: false });
    assert!(matches!(run.step(Event::BackupProbed { exists: true }), Action::CopyBackup));
    assert!(matches!(run.step(answered(404, "")), Action::CopyBackup));
    assert_eq!(run.stage(), Stage::BackingUp(BackupStep::Copying));
}

#[test]
fn append_holds_the_section_of_the_entries() {
    let run = run_at_writing(&["a  1", "skipped", "你好\tnihk"]);
    match run.pending() {
        Action::Append { bytes } => {
            assert_eq!(bytes, "\n\n用户自定义词库\na\t1\n你好\tnihk\n".as_bytes());
        }
        other => panic!("{:?}", other),
    }
}

#[test]
fn append_of_an_empty_page_is_the_header() {
    let run = run_at_writing(&[]);
    match run.pending() {
        Action::Append { bytes } => assert_eq!(bytes, "\n\n用户自定义词库\n".as_bytes()),
        other => panic!("{:?}", other),
    }
}

#[test]
fn written_section_is_reported() {
    let mut run = run_at_writing(&["a  1"]);
    match run.step(Event::Completed) {
        Action::Report { lines } => {
            assert_eq!(lines, vec!["导入: a\t1".to_string(), "导入完成, 共导入: 1个词".to_string()]);
        }
        other => panic!("{:?}", other),
    }
    assert_eq!(run.stage(), Stage::Reporting);
}

#[test]
fn failed_write_fails_the_run() {
    let mut run = run_at_writing(&["a 1"]);
    let action = run.step(Event::Failed);
    assert!(is_exit(&action, 1, &[]));
    assert_eq!(run.stage(), Stage::Failed(Failure::WriteFailed));
}

#[test]
fn writing_ignores_what_it_did_not_ask_for() {
    let mut run = run_at_writing(&["a 1"]);
    assert!(matches!(run.step(Event::BackupProbed { exists: false }), Action::Append { .. }));
    assert!(matches!(run.step(answered(500, "")), Action::Append { .. }));
    assert_eq!(run.stage(), Stage::Writing);
}

#[test]
fn shown_report_ends_the_run() {
    let mut run = run_at_writing(&["a 1"]);
    run.step(Event::Completed);
    let action = run.step(Event::Completed);
    assert!(is_exit(&action, 0, &[]));
    assert_eq!(run.stage(), Stage::Done);
}

#[test]
fn report_that_cannot_be_shown_does_not_fail_the_run() {
    let mut run = run_at_writing(&["a 1"]);
    run.step(Event::Completed);
    let action = run.step(Event::Failed);
    assert!(is_exit(&action, 0, &[]));
    assert_eq!(run.stage(), Stage::Done);
}

#[test]
fn finished_run_stays_finished() {
    let mut done = run_at_writing(&["a 1"]);
    done.step(Event::Completed);
    done.step(Event::Completed);
    let mut failed = SyncRun::new(PAGE.to_string());
    failed.begin();
    failed.step(answered(404, ""));
    for _ in 0..3 {
        for event in [
            answered(200, &page_of(&["b 2"])),
            Event::BackupProbed { exists: false },
            Event::Completed,
            Event::Failed,
        ] {
            assert!(is_exit(&done.step(event), 0, &[]));
        }
        assert!(is_exit(&done.begin(), 0, &[]));
        assert_eq!(done.stage(), Stage::Done);
        assert!(is_exit(&failed.step(Event::Completed), 1, &hint_for_page()));
        assert!(is_exit(&failed.begin(), 1, &hint_for_page()));
        assert_eq!(failed.stage(), Stage::Failed(Failure::RemoteUnavailable));
    }
    assert_eq!(done.entries().len(), 1);
}

#[test]
fn step_answers_with_the_pending_action() {
    let mut run = SyncRun::new(PAGE.to_string());
    let mut action = run.begin();
    let events = [
        answered(200, &page_of(&["a 1", "b 2"])),
        Event::BackupProbed { exists: false },
        Event::Completed,
        Event::Completed,
        Event::Completed,
    ];
    for event in events {
        assert_eq!(format!("{:?}", action), format!("{:?}", run.pending()));
        action = run.step(event);
    }
    assert_eq!(format!("{:?}", action), format!("{:?}", run.pending()));
    assert!(is_exit(&action, 0, &[]));
}

#[test]
fn stages_are_passed_in_order() {
    let mut run = SyncRun::new(PAGE.to_string());
    let mut seen = vec![run.stage()];
    run.begin();
    seen.push(run.stage());
    for event in [
        answered(200, &page_of(&["a 1"])),
        Event::BackupProbed { exists: false },
        Event::Completed,
        Event::Completed,
        Event::Completed,
    ] {
        run.step(event);
        seen.push(run.stage());
    }
    assert_eq!(
        seen,
        vec![
            Stage::Start,
            Stage::Fetching,
            Stage::BackingUp(BackupStep::Probing),
            Stage::BackingUp(BackupStep::Copying),
            Stage::Writing,
            Stage::Reporting,
            Stage::Done,
        ]
    );
    assert!(!seen.contains(&Stage::Extracting));
}
