//! The one-step file upload: create an upload session, send the file to it,
//! complete it. Each step waits for the answer to the previous one, so the
//! sequence is a state machine: `upload_start` opens it, and `upload_step`
//! takes each answer and says which request comes next.

use vstd::prelude::*;
use vstd::string::*;
use crate::error::NotionError;

verus! {

/// The path that creates upload sessions.
pub const FILE_UPLOADS_PATH: &'static str = "/v1/file_uploads";

/// The mode of a session that takes the whole file at once.
pub const SINGLE_PART: &'static str = "single_part";

pub open spec fn send_path_of(id: Seq<char>) -> Seq<char> {
    "/v1/file_uploads/"@ + id + "/send"@
}

pub open spec fn complete_path_of(id: Seq<char>) -> Seq<char> {
    "/v1/file_uploads/"@ + id + "/complete"@
}

/// The path that sends a file to upload session `id`.
pub fn send_path(id: &str) -> (r: String)
    ensures
        r@ == send_path_of(id@),
{
    String::from_str("/v1/file_uploads/").concat(id).concat("/send")
}

/// The path that completes upload session `id`.
pub fn complete_path(id: &str) -> (r: String)
    ensures
        r@ == complete_path_of(id@),
{
    String::from_str("/v1/file_uploads/").concat(id).concat("/complete")
}

/// Where an upload stands.
#[derive(Debug)]
pub enum UploadState {
    /// Waiting for the session to be created.
    Creating,
    /// Waiting for the file to reach session `id`.
    Sending { id: String },
    /// Waiting for session `id` to be completed.
    Completing { id: String },
    Finished,
    Failed,
}

/// An answer that the upload waits for.
#[derive(Debug)]
pub enum UploadEvent {
    /// The session was created; its answer carried this identifier, if any.
    Created { id: Option<String> },
    /// The file was sent.
    Sent,
    /// The session was completed.
    Completed,
}

/// What to do next.
#[derive(Debug)]
pub enum UploadAction {
    /// POST to `path` a session with this mode, file name and content type.
    Create { path: String, mode: String, filename: String, content_type: Option<String> },
    /// Send the file as a multipart POST to `path`.
    SendFile { path: String },
    /// POST to `path` with no body.
    Complete { path: String },
    /// The upload is complete.
    Done,
    /// The upload stops with this error.
    Fail(NotionError),
    /// The answer does not fit the state: nothing to do.
    Ignore,
}

/// The state of an upload, as a value.
pub enum Stage {
    Creating,
    Sending(Seq<char>),
    Completing(Seq<char>),
    Finished,
    Failed,
}

/// An answer, as a value.
pub enum Happened {
    Created(Option<Seq<char>>),
    Sent,
    Completed,
}

/// A request or outcome, as a value.
pub enum Next {
    /// Path, mode, file name and content type of the session to create.
    Create(Seq<char>, Seq<char>, Seq<char>, Option<Seq<char>>),
    SendFile(Seq<char>),
    Complete(Seq<char>),
    Done,
    Fail,
    Ignore,
}

pub open spec fn opt_view(o: Option<String>) -> Option<Seq<char>> {
    match o {
        Some(s) => Some(s@),
        None => None,
    }
}

impl View for UploadState {
    type V = Stage;

    open spec fn view(&self) -> Stage {
        match self {
            UploadState::Creating => Stage::Creating,
            UploadState::Sending { id } => Stage::Sending(id@),
            UploadState::Completing { id } => Stage::Completing(id@),
            UploadState::Finished => Stage::Finished,
            UploadState::Failed => Stage::Failed,
        }
    }
}

impl View for UploadEvent {
    type V = Happened;

    open spec fn view(&self) -> Happened {
        match self {
            UploadEvent::Created { id } => Happened::Created(opt_view(*id)),
            UploadEvent::Sent => Happened::Sent,
            UploadEvent::Completed => Happened::Completed,
        }
    }
}

impl View for UploadAction {
    type V = Next;

    open spec fn view(&self) -> Next {
        match self {
            UploadAction::Create { path, mode, filename, content_type } => Next::Create(
                path@,
                mode@,
                filename@,
                opt_view(*content_type),
            ),
            UploadAction::SendFile { path } => Next::SendFile(path@),
            UploadAction::Complete { path } => Next::Complete(path@),
            UploadAction::Done => Next::Done,
            UploadAction::Fail(_) => Next::Fail,
            UploadAction::Ignore => Next::Ignore,
        }
    }
}

/// How an upload of the file named `filename` starts.
pub open spec fn start_of(filename: Option<Seq<char>>, content_type: Option<Seq<char>>) -> (Stage, Next) {
    match filename {
        Some(f) => (Stage::Creating, Next::Create(FILE_UPLOADS_PATH@, SINGLE_PART@, f, content_type)),
        None => (Stage::Failed, Next::Fail),
    }
}

/// How an upload in stage `s` takes the answer `e`.
pub open spec fn step_of(s: Stage, e: Happened) -> (Stage, Next) {
    match (s, e) {
        (Stage::Creating, Happened::Created(Some(id))) => (Stage::Sending(id), Next::SendFile(send_path_of(id))),
        (Stage::Creating, Happened::Created(None)) => (Stage::Failed, Next::Fail),
        (Stage::Sending(id), Happened::Sent) => (Stage::Completing(id), Next::Complete(complete_path_of(id))),
        (Stage::Completing(_), Happened::Completed) => (Stage::Finished, Next::Done),
        _ => (s, Next::Ignore),
    }
}

/// Opens an upload of the file named `filename` (`None` when the path has no
/// usable file name, which fails at once).
pub fn upload_start(filename: Option<&str>, content_type: Option<&str>) -> (r: (UploadState, UploadAction))
    ensures
        (r.0@, r.1@) == start_of(
            match filename {
                Some(f) => Some(f@),
                None => None,
            },
            match content_type {
                Some(c) => Some(c@),
                None => None,
            },
        ),
        filename is None ==> r.1 matches UploadAction::Fail(NotionError::NoFileName),
{
    match filename {
        Some(f) => {
            let ct = match content_type {
                Some(c) => Some(String::from_str(c)),
                None => None,
            };
            (
                UploadState::Creating,
                UploadAction::Create {
                    path: String::from_str(FILE_UPLOADS_PATH),
                    mode: String::from_str(SINGLE_PART),
                    filename: String::from_str(f),
                    content_type: ct,
                },
            )
        },
        None => (UploadState::Failed, UploadAction::Fail(NotionError::NoFileName)),
    }
}

fn same_state(s: &UploadState) -> (r: UploadState)
    ensures
        r@ == s@,
{
    match s {
        UploadState::Creating => UploadState::Creating,
        UploadState::Sending { id } => UploadState::Sending { id: id.clone() },
        UploadState::Completing { id } => UploadState::Completing { id: id.clone() },
        UploadState::Finished => UploadState::Finished,
        UploadState::Failed => UploadState::Failed,
    }
}

/// Takes the answer to the last request and says what comes next: the file goes
/// to the session that was created, and that same session is then completed. A
/// created session without an identifier stops the upload.
pub fn upload_step(state: &UploadState, event: &UploadEvent) -> (r: (UploadState, UploadAction))
    ensures
        (r.0@, r.1@) == step_of(state@, event@),
        (state is Creating && event matches UploadEvent::Created { id: None }) ==> r.1 matches UploadAction::Fail(
            NotionError::MissingUploadId,
        ),
{
    match (state, event) {
        (UploadState::Creating, UploadEvent::Created { id: Some(id) }) => {
            let path = send_path(id.as_str());
            (UploadState::Sending { id: id.clone() }, UploadAction::SendFile { path })
        },
        (UploadState::Creating, UploadEvent::Created { id: None }) => {
            (UploadState::Failed, UploadAction::Fail(NotionError::MissingUploadId))
        },
        (UploadState::Sending { id }, UploadEvent::Sent) => {
            let path = complete_path(id.as_str());
            (UploadState::Completing { id: id.clone() }, UploadAction::Complete { path })
        },
        (UploadState::Completing { .. }, UploadEvent::Completed) => (UploadState::Finished, UploadAction::Done),
        _ => (same_state(state), UploadAction::Ignore),
    }
}

/// When every step succeeds, an upload makes exactly three requests, in order:
/// it creates the session, sends the file to the session that the first answer
/// named, and completes that same session.
pub proof fn law_upload_sequence(filename: Seq<char>, content_type: Option<Seq<char>>, id: Seq<char>)
    ensures
        ({
            let (s0, a0) = start_of(Some(filename), content_type);
            let (s1, a1) = step_of(s0, Happened::Created(Some(id)));
            let (s2, a2) = step_of(s1, Happened::Sent);
            let (s3, a3) = step_of(s2, Happened::Completed);
            &&& a0 == Next::Create(FILE_UPLOADS_PATH@, SINGLE_PART@, filename, content_type)
            &&& a1 == Next::SendFile(send_path_of(id))
            &&& a2 == Next::Complete(complete_path_of(id))
            &&& a3 == Next::Done
            &&& s3 == Stage::Finished
        }),
{
}

} // verus!
