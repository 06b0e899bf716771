//! The interactive edit session: one card, one temp file, one editor run as
//! an external process.  All decisions are a pure transition function here;
//! the caller performs the file reads, uploads, process polls and prompts
//! that the returned actions ask for, and reports their outcomes back as
//! events.

use vstd::prelude::*;
use crate::text::trim_spec;
use crate::text::trim_trailing_blank;
use crate::trello::card::{decode_spec, Card, CardContents};
use crate::trello::trello_error::TrelloError;

verus! {

/// How uploading has gone since the editor was last (re)opened.
#[derive(Debug, PartialEq, Eq, Clone, Copy)]
pub enum UploadStatus {
    NotAttempted,
    Succeeded,
    Failed,
}

/// Where the session stands, and which event it awaits.
#[derive(Debug, PartialEq, Eq, Clone, Copy)]
pub enum SessionState {
    /// Awaiting the next full re-read of the temp file.
    Editing,
    /// An upload is in flight; awaiting its outcome.
    Uploading,
    /// Awaiting a non-blocking poll of the editor process; `parse_failed`
    /// notes that this tick's buffer did not decode.
    PollingExit { parse_failed: bool },
    /// A failure was reported; awaiting the user's confirmation before the
    /// editor is reopened on the same file.
    WaitingAfterError,
    /// The session is over.
    Done,
}

/// What the session's driver observed, handed in as one event.
#[derive(Debug, PartialEq, Eq)]
pub enum SessionEvent {
    /// The temp file was re-opened and fully re-read.
    FileRead { buffer: String },
    /// The upload returned; `error` carries the failure's text, if any.
    UploadDone { error: Option<String> },
    /// The editor process was polled without blocking.
    EditorPoll { exited: bool },
    /// The user confirmed the prompt and the editor was reopened.
    Resumed,
}

/// The mathematical value of a [`SessionEvent`].
pub enum EventView {
    FileRead { buffer: Seq<char> },
    UploadDone { error: Option<Seq<char>> },
    EditorPoll { exited: bool },
    Resumed,
}

impl View for SessionEvent {
    type V = EventView;

    open spec fn view(&self) -> EventView {
        match *self {
            SessionEvent::FileRead { ref buffer } => EventView::FileRead { buffer: buffer@ },
            SessionEvent::UploadDone { ref error } => EventView::UploadDone {
                error: match *error {
                    Option::Some(ref e) => Option::Some(e@),
                    Option::None => Option::None,
                },
            },
            SessionEvent::EditorPoll { exited } => EventView::EditorPoll { exited },
            SessionEvent::Resumed => EventView::Resumed,
        }
    }
}

/// What the session's driver must do next.
#[derive(Debug, PartialEq, Eq)]
pub enum SessionAction {
    /// Sleep one tick interval, re-read the temp file, and report it.
    Sleep,
    /// Upload these fields to the remote card, and report the outcome.
    Upload { name: String, desc: String },
    /// Poll the editor process without blocking, and report whether it
    /// exited.
    PollEditor,
    /// Print the message, block on the confirmation prompt, reopen the
    /// editor on the same file, and report the resumption.
    Prompt { message: String },
    /// The session is over; nothing is owed.
    Finish,
}

/// The mathematical value of a [`SessionAction`].
pub enum ActionView {
    Sleep,
    Upload { name: Seq<char>, desc: Seq<char> },
    PollEditor,
    Prompt { message: Seq<char> },
    Finish,
}

impl View for SessionAction {
    type V = ActionView;

    open spec fn view(&self) -> ActionView {
        match *self {
            SessionAction::Sleep => ActionView::Sleep,
            SessionAction::Upload { ref name, ref desc } => ActionView::Upload {
                name: name@,
                desc: desc@,
            },
            SessionAction::PollEditor => ActionView::PollEditor,
            SessionAction::Prompt { ref message } => ActionView::Prompt { message: message@ },
            SessionAction::Finish => ActionView::Finish,
        }
    }
}

/// The mathematical value of an [`EditSession`].
pub struct SessionView {
    pub card_id: Seq<char>,
    pub name: Seq<char>,
    pub desc: Seq<char>,
    pub outcome: UploadStatus,
    pub last_error: Seq<char>,
    pub state: SessionState,
}

/// One edit session, bound to one card and one temp file for its lifetime.
pub struct EditSession {
    card_id: String,
    name: String,
    desc: String,
    outcome: UploadStatus,
    last_error: String,
    state: SessionState,
}

impl View for EditSession {
    type V = SessionView;

    closed spec fn view(&self) -> SessionView {
        SessionView {
            card_id: self.card_id@,
            name: self.name@,
            desc: self.desc@,
            outcome: self.outcome,
            last_error: self.last_error@,
            state: self.state,
        }
    }
}

/// The text of the one parse failure decoding can report.
pub open spec fn parse_error_text() -> Seq<char> {
    "Unable to find name delimiter '===='"@
}

/// Leaving the editing loop: with no upload attempted, or a success, the
/// session is done; after a failure it reports and waits for the user.
pub open spec fn decide_exit(pre: SessionView) -> (SessionView, ActionView) {
    match pre.outcome {
        UploadStatus::Failed => (
            SessionView { state: SessionState::WaitingAfterError, ..pre },
            ActionView::Prompt { message: pre.last_error },
        ),
        _ => (SessionView { state: SessionState::Done, ..pre }, ActionView::Finish),
    }
}

/// The pure per-tick transition of the session.
///
/// A freshly read buffer is trimmed of trailing blanks and decoded.  A
/// buffer that does not decode is retried next tick while the editor runs;
/// once the editor has exited it becomes the tick's failure.  A decoded
/// buffer is uploaded when no upload was attempted yet, when the last
/// attempt failed, or when it differs from the fields in memory; otherwise
/// nothing is uploaded.  After each tick the editor is polled, and only its
/// exit leaves the editing loop.
pub open spec fn step_spec(pre: SessionView, ev: EventView) -> (SessionView, ActionView) {
    match ev {
        EventView::FileRead { buffer } => {
            match decode_spec(trim_spec(buffer)) {
                Option::None => (
                    SessionView {
                        state: SessionState::PollingExit { parse_failed: true },
                        last_error: parse_error_text(),
                        ..pre
                    },
                    ActionView::PollEditor,
                ),
                Option::Some(nd) => {
                    if pre.outcome is NotAttempted || pre.outcome is Failed || nd.0 != pre.name
                        || nd.1 != pre.desc {
                        (
                            SessionView {
                                name: nd.0,
                                desc: nd.1,
                                state: SessionState::Uploading,
                                ..pre
                            },
                            ActionView::Upload { name: nd.0, desc: nd.1 },
                        )
                    } else {
                        (
                            SessionView {
                                state: SessionState::PollingExit { parse_failed: false },
                                ..pre
                            },
                            ActionView::PollEditor,
                        )
                    }
                },
            }
        },
        EventView::UploadDone { error } => match error {
            Option::None => (
                SessionView {
                    outcome: UploadStatus::Succeeded,
                    state: SessionState::PollingExit { parse_failed: false },
                    ..pre
                },
                ActionView::PollEditor,
            ),
            Option::Some(msg) => (
                SessionView {
                    outcome: UploadStatus::Failed,
                    last_error: msg,
                    state: SessionState::PollingExit { parse_failed: false },
                    ..pre
                },
                ActionView::PollEditor,
            ),
        },
        EventView::EditorPoll { exited } => {
            if !exited {
                (SessionView { state: SessionState::Editing, ..pre }, ActionView::Sleep)
            } else {
                let settled = if pre.state == (SessionState::PollingExit { parse_failed: true }) {
                    SessionView { outcome: UploadStatus::Failed, ..pre }
                } else {
                    pre
                };
                decide_exit(settled)
            }
        },
        EventView::Resumed => (
            SessionView {
                outcome: UploadStatus::NotAttempted,
                state: SessionState::Editing,
                ..pre
            },
            ActionView::Sleep,
        ),
    }
}

impl EditSession {
    /// Which event each state awaits; a finished session awaits none.
    pub open spec fn event_fits(state: SessionState, ev: EventView) -> bool {
        match state {
            SessionState::Editing => ev is FileRead,
            SessionState::Uploading => ev is UploadDone,
            SessionState::PollingExit { parse_failed } => ev is EditorPoll,
            SessionState::WaitingAfterError => ev is Resumed,
            SessionState::Done => false,
        }
    }

    /// Opens a session on the card: its fields are taken as the last known
    /// remote state, nothing has been uploaded, and the first file read is
    /// awaited.
    pub fn new(card: &Card) -> (s: EditSession)
        ensures
            s@.card_id == card.id@,
            s@.name == card.name@,
            s@.desc == card.desc@,
            s@.outcome == UploadStatus::NotAttempted,
            s@.last_error == Seq::<char>::empty(),
            s@.state == SessionState::Editing,
    {
        EditSession {
            card_id: card.id.clone(),
            name: card.name.clone(),
            desc: card.desc.clone(),
            outcome: UploadStatus::NotAttempted,
            last_error: String::new(),
            state: SessionState::Editing,
        }
    }

    /// The id of the card this session edits.
    pub fn card_id(&self) -> (r: &str)
        ensures
            r@ == self@.card_id,
    {
        self.card_id.as_str()
    }

    /// Where the session stands.
    pub fn state(&self) -> (r: SessionState)
        ensures
            r == self@.state,
    {
        self.state
    }

    /// The name last taken from the editor buffer, or the card's own.
    pub fn name(&self) -> (r: &str)
        ensures
            r@ == self@.name,
    {
        self.name.as_str()
    }

    /// The description last taken from the editor buffer, or the card's own.
    pub fn desc(&self) -> (r: &str)
        ensures
            r@ == self@.desc,
    {
        self.desc.as_str()
    }

    /// Feeds one observation in and says what to do next, exactly as
    /// [`step_spec`] decides.
    pub fn step(&mut self, event: SessionEvent) -> (a: SessionAction)
        requires
            Self::event_fits(old(self)@.state, event@),
        ensures
            final(self)@ == step_spec(old(self)@, event@).0,
            a@ == step_spec(old(self)@, event@).1,
    {
        match event {
            SessionEvent::FileRead { buffer } => {
                let trimmed = trim_trailing_blank(buffer.as_str());
                match CardContents::from_buffer(trimmed.as_str()) {
                    Ok(c) => {
                        let need = match self.outcome {
                            UploadStatus::NotAttempted => true,
                            UploadStatus::Failed => true,
                            UploadStatus::Succeeded => !(c.name == self.name) || !(c.desc
                                == self.desc),
                        };
                        if need {
                            self.name = c.name;
                            self.desc = c.desc;
                            self.state = SessionState::Uploading;
                            let name_out = self.name.clone();
                            let desc_out = self.desc.clone();
                            SessionAction::Upload { name: name_out, desc: desc_out }
                        } else {
                            self.state = SessionState::PollingExit { parse_failed: false };
                            SessionAction::PollEditor
                        }
                    },
                    Err(e) => {
                        match e {
                            TrelloError::CardParse(m) => {
                                self.last_error = m;
                            },
                            TrelloError::UrlParse(_) => {
                                proof {
                                    assert(false);
                                }
                            },
                        }
                        self.state = SessionState::PollingExit { parse_failed: true };
                        SessionAction::PollEditor
                    },
                }
            },
            SessionEvent::UploadDone { error } => {
                match error {
                    Option::None => {
                        self.outcome = UploadStatus::Succeeded;
                    },
                    Option::Some(msg) => {
                        self.outcome = UploadStatus::Failed;
                        self.last_error = msg;
                    },
                }
                self.state = SessionState::PollingExit { parse_failed: false };
                SessionAction::PollEditor
            },
            SessionEvent::EditorPoll { exited } => {
                if !exited {
                    self.state = SessionState::Editing;
                    SessionAction::Sleep
                } else {
                    let pf = match self.state {
                        SessionState::PollingExit { parse_failed } => parse_failed,
                        _ => false,
                    };
                    if pf {
                        self.outcome = UploadStatus::Failed;
                    }
                    match self.outcome {
                        UploadStatus::Failed => {
                            self.state = SessionState::WaitingAfterError;
                            let msg = self.last_error.clone();
                            SessionAction::Prompt { message: msg }
                        },
                        _ => {
                            self.state = SessionState::Done;
                            SessionAction::Finish
                        },
                    }
                }
            },
            SessionEvent::Resumed => {
                self.outcome = UploadStatus::NotAttempted;
                self.state = SessionState::Editing;
                SessionAction::Sleep
            },
        }
    }
}

/// The editor command to spawn: the environment's choice where one is set,
/// else `vi`.
pub fn editor_command(env_editor: Option<String>) -> (r: String)
    ensures
        r@ == match env_editor {
            Option::Some(e) => e@,
            Option::None => "vi"@,
        },
{
    match env_editor {
        Option::Some(e) => e,
        Option::None => String::from_str("vi"),
    }
}

} // verus!
