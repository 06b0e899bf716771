use tro::edit::{
    editor_command, EditSession, SessionAction, SessionEvent, SessionState,
};
use tro::trello::trello_object::Renderable;
use tro::trello::Card;

fn file_read(buffer: &str) -> SessionEvent {
    SessionEvent::FileRead {
        buffer: buffer.to_string(),
    }
}

#[test]
fn one_save_then_close_uploads_once_and_finishes() {
    let card = Card::new("c9", "Old Name", "old desc", None, "");
    let mut session = EditSession::new(&card);
    let mut uploads: Vec<(String, String)> = vec![];

    // The user saved new content before the first tick read the file.
    let buffer = "New Name\n========\nnew desc\n";
    let action = session.step(file_read(buffer));
    let (up_name, up_desc) = match action {
        SessionAction::Upload { name, desc } => (name, desc),
        other => panic!("expected an upload, got {:?}", other),
    };
    uploads.push((up_name, up_desc));
    let action = session.step(SessionEvent::UploadDone { error: None });
    assert_eq!(action, SessionAction::PollEditor);

    // The editor has closed by the time it is polled.
    let action = session.step(SessionEvent::EditorPoll { exited: true });
    assert_eq!(action, SessionAction::Finish);
    assert_eq!(session.state(), SessionState::Done);

    assert_eq!(
        uploads,
        vec![("New Name".to_string(), "new desc".to_string())]
    );
}

#[test]
fn unparsable_saves_upload_nothing_until_one_parses() {
    let card = Card::new("c1", "Name", "desc", None, "");
    let mut session = EditSession::new(&card);
    let mut uploads: Vec<(String, String)> = vec![];

    // Two ticks observe a buffer without a delimiter line while the editor
    // still runs: no upload, keep polling.
    for _ in 0..2 {
        let action = session.step(file_read("scratch with no delimiter\n"));
        assert_eq!(action, SessionAction::PollEditor);
        let action = session.step(SessionEvent::EditorPoll { exited: false });
        assert_eq!(action, SessionAction::Sleep);
        assert_eq!(session.state(), SessionState::Editing);
    }
    assert!(uploads.is_empty());

    // A later save parses: exactly one upload follows.
    let action = session.step(file_read("Fixed\n=====\nbody\n"));
    match action {
        SessionAction::Upload { name, desc } => uploads.push((name, desc)),
        other => panic!("expected an upload, got {:?}", other),
    }
    let action = session.step(SessionEvent::UploadDone { error: None });
    assert_eq!(action, SessionAction::PollEditor);
    let action = session.step(SessionEvent::EditorPoll { exited: true });
    assert_eq!(action, SessionAction::Finish);

    assert_eq!(uploads, vec![("Fixed".to_string(), "body".to_string())]);
}

#[test]
fn closing_over_an_unparsable_buffer_reports_and_retries() {
    let card = Card::new("c2", "Name", "desc", None, "");
    let mut session = EditSession::new(&card);

    let action = session.step(file_read("no delimiter here"));
    assert_eq!(action, SessionAction::PollEditor);
    let action = session.step(SessionEvent::EditorPoll { exited: true });
    match action {
        SessionAction::Prompt { message } => {
            assert_eq!(message, "Unable to find name delimiter '===='");
        }
        other => panic!("expected a prompt, got {:?}", other),
    }
    assert_eq!(session.state(), SessionState::WaitingAfterError);

    // After the user confirms, the editor is reopened and a good save ends
    // the session with one upload.
    let action = session.step(SessionEvent::Resumed);
    assert_eq!(action, SessionAction::Sleep);
    let action = session.step(file_read("Name\n====\ndesc"));
    assert!(matches!(action, SessionAction::Upload { .. }));
    session.step(SessionEvent::UploadDone { error: None });
    let action = session.step(SessionEvent::EditorPoll { exited: true });
    assert_eq!(action, SessionAction::Finish);
}

#[test]
fn a_failed_upload_prompts_and_is_retried_after_resume() {
    let card = Card::new("c3", "Name", "desc", None, "");
    let mut session = EditSession::new(&card);

    let action = session.step(file_read("Name\n====\nnewer desc"));
    assert!(matches!(action, SessionAction::Upload { .. }));
    let action = session.step(SessionEvent::UploadDone {
        error: Some("connection reset".to_string()),
    });
    assert_eq!(action, SessionAction::PollEditor);
    let action = session.step(SessionEvent::EditorPoll { exited: true });
    assert_eq!(
        action,
        SessionAction::Prompt {
            message: "connection reset".to_string()
        }
    );

    let action = session.step(SessionEvent::Resumed);
    assert_eq!(action, SessionAction::Sleep);

    // The unchanged buffer is re-uploaded, because nothing was attempted
    // since the editor was reopened.
    let action = session.step(file_read("Name\n====\nnewer desc"));
    match action {
        SessionAction::Upload { name, desc } => {
            assert_eq!(name, "Name");
            assert_eq!(desc, "newer desc");
        }
        other => panic!("expected an upload, got {:?}", other),
    }
    session.step(SessionEvent::UploadDone { error: None });
    let action = session.step(SessionEvent::EditorPoll { exited: true });
    assert_eq!(action, SessionAction::Finish);
}

#[test]
fn an_unchanged_buffer_after_a_success_is_not_reuploaded() {
    let card = Card::new("c4", "Name", "desc", None, "");
    let mut session = EditSession::new(&card);

    let action = session.step(file_read("Name\n====\ndesc"));
    assert!(matches!(action, SessionAction::Upload { .. }));
    session.step(SessionEvent::UploadDone { error: None });
    let action = session.step(SessionEvent::EditorPoll { exited: false });
    assert_eq!(action, SessionAction::Sleep);

    // The same content comes back on the next tick: nothing to upload.
    let action = session.step(file_read("Name\n====\ndesc"));
    assert_eq!(action, SessionAction::PollEditor);
    let action = session.step(SessionEvent::EditorPoll { exited: true });
    assert_eq!(action, SessionAction::Finish);
}

#[test]
fn the_initial_buffer_is_the_rendered_card() {
    let card = Card::new("c5", "Errands", "milk\neggs", None, "");
    assert_eq!(card.render(), "Errands\n=======\nmilk\neggs");
    let session = EditSession::new(&card);
    assert_eq!(session.card_id(), "c5");
    assert_eq!(session.name(), "Errands");
    assert_eq!(session.desc(), "milk\neggs");
    assert_eq!(session.state(), SessionState::Editing);
}

#[test]
fn editor_command_prefers_the_environment() {
    assert_eq!(editor_command(Some("nano".to_string())), "nano");
    assert_eq!(editor_command(None), "vi");
}
