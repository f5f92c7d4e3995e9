//! The outcome resolver: every operation's fixed status table, and the one
//! function that classifies a raw response status against it.
//!
//! A response is resolved in three steps. A status in the operation's
//! success set yields the payload (or empty success). A status in the
//! operation's known-failure set yields the exact error condition that the
//! table fixes for it. Any other status yields an unexpected-status error
//! carrying the raw code. In both failure cases the error text is enriched,
//! best effort, from the engine's `{message}` envelope; when the body does
//! not parse, the operation's fixed default text stands alone.

use crate::codec::{message_of, parse_error_message};
use vstd::prelude::*;
use vstd::string::*;

verus! {

/// Every operation class the client issues, each with its own status table.
#[derive(Debug, Clone, Copy, PartialEq, Eq, Structural)]
pub enum OpKind {
    Start,
    Stop,
    Inspect,
    Restart,
    Kill,
    Pause,
    Unpause,
    Rename,
    Remove,
    List,
    Create,
    ArchiveGet,
    ArchiveStat,
    ArchiveWrite,
    Ps,
    Attach,
    ExecCreate,
    ExecStart,
    ImageList,
    ImageCreate,
    ImageRemove,
    ImageImport,
    ImageTag,
    ImageInspect,
    ImageHistory,
    ImageSearch,
    ImagePrune,
    ImageBuild,
    NetworkList,
    NetworkRemove,
    Auth,
}

/// The named failure conditions the status tables map onto. Callers can tell
/// an idempotent failure (already started) from a missing target, a rejected
/// request, and a server fault.
#[derive(Debug, Clone, Copy, PartialEq, Eq, Structural)]
pub enum ErrorKind {
    AlreadyStarted,
    AlreadyStopped,
    NotFound,
    NameConflict,
    Conflict,
    BadParameter,
    PermissionDenied,
    ContainerPaused,
    NoSuchExec,
    PredefinedNetwork,
    RepoNotFound,
    ServerError,
}

/// A resolved error.
#[derive(Debug, Clone, PartialEq, Eq)]
pub enum EngineError {
    /// The request could not be sent or no response was received.
    Transport(String),
    /// A declared-success response whose body did not match the expected
    /// payload shape.
    Decode(String),
    /// A status the operation's table maps to a named failure condition,
    /// with the enriched or default text.
    Protocol(ErrorKind, String),
    /// A status in neither the success set nor the known-failure set.
    UnexpectedStatus(u16, String),
    /// An archive-stat response with success status but no stat header.
    MissingStatHeader,
}

/// The mathematical shape of an [`EngineError`].
pub enum EngineErrorV {
    Transport(Seq<char>),
    Decode(Seq<char>),
    Protocol(ErrorKind, Seq<char>),
    UnexpectedStatus(u16, Seq<char>),
    MissingStatHeader,
}

impl View for EngineError {
    type V = EngineErrorV;

    open spec fn view(&self) -> EngineErrorV {
        match self {
            EngineError::Transport(m) => EngineErrorV::Transport(m@),
            EngineError::Decode(m) => EngineErrorV::Decode(m@),
            EngineError::Protocol(k, m) => EngineErrorV::Protocol(*k, m@),
            EngineError::UnexpectedStatus(c, m) => EngineErrorV::UnexpectedStatus(*c, m@),
            EngineError::MissingStatHeader => EngineErrorV::MissingStatHeader,
        }
    }
}

impl EngineError {
    /// The human-readable text attached to the error.
    pub fn message(&self) -> (r: String)
        ensures
            r@ == self@.msg(),
    {
        match self {
            EngineError::Transport(m) => m.clone(),
            EngineError::Decode(m) => m.clone(),
            EngineError::Protocol(_, m) => m.clone(),
            EngineError::UnexpectedStatus(_, m) => m.clone(),
            EngineError::MissingStatHeader => String::from_str(
                "could not parse FileInfo from base64 encoded header",
            ),
        }
    }
}

impl EngineErrorV {
    /// The text attached to the error.
    pub open spec fn msg(self) -> Seq<char> {
        match self {
            EngineErrorV::Transport(m) => m,
            EngineErrorV::Decode(m) => m,
            EngineErrorV::Protocol(_, m) => m,
            EngineErrorV::UnexpectedStatus(_, m) => m,
            EngineErrorV::MissingStatHeader => "could not parse FileInfo from base64 encoded header"@,
        }
    }
}

/// What a successful resolution hands back.
#[derive(Debug, Clone, PartialEq, Eq)]
pub enum Outcome {
    /// The raw body, for operations whose success carries a payload.
    Payload(Vec<u8>),
    /// Success without a payload.
    Empty,
}

/// The mathematical shape of an [`Outcome`].
pub enum OutcomeV {
    Payload(Seq<u8>),
    Empty,
}

impl View for Outcome {
    type V = OutcomeV;

    open spec fn view(&self) -> OutcomeV {
        match self {
            Outcome::Payload(b) => OutcomeV::Payload(b@),
            Outcome::Empty => OutcomeV::Empty,
        }
    }
}

/// The success set: the statuses on which the operation succeeds.
pub open spec fn is_success(op: OpKind, status: u16) -> bool {
    match op {
        OpKind::Start
        | OpKind::Stop
        | OpKind::Restart
        | OpKind::Kill
        | OpKind::Pause
        | OpKind::Unpause
        | OpKind::Rename
        | OpKind::NetworkRemove => status == 204,
        OpKind::Remove => status == 204 || status == 200,
        OpKind::Inspect
        | OpKind::List
        | OpKind::Ps
        | OpKind::ArchiveGet
        | OpKind::ArchiveStat
        | OpKind::ArchiveWrite
        | OpKind::ExecStart
        | OpKind::ImageList
        | OpKind::ImageCreate
        | OpKind::ImageRemove
        | OpKind::ImageImport
        | OpKind::ImageInspect
        | OpKind::ImageHistory
        | OpKind::ImageSearch
        | OpKind::ImagePrune
        | OpKind::ImageBuild
        | OpKind::NetworkList => status == 200,
        OpKind::Create | OpKind::ExecCreate | OpKind::ImageTag => status == 201,
        OpKind::Attach => status == 101,
        OpKind::Auth => status == 200 || status == 204,
    }
}

/// Whether a success at this status carries a body payload, rather than
/// being an empty success.
pub open spec fn payload_success(op: OpKind, status: u16) -> bool {
    match op {
        OpKind::Inspect
        | OpKind::List
        | OpKind::Ps
        | OpKind::ArchiveGet
        | OpKind::ExecCreate
        | OpKind::ExecStart
        | OpKind::ImageList
        | OpKind::ImageInspect
        | OpKind::ImageHistory
        | OpKind::ImageSearch
        | OpKind::ImagePrune
        | OpKind::NetworkList => true,
        OpKind::Auth => status == 200,
        _ => false,
    }
}

/// The known-failure set: the named condition the operation's table fixes
/// for a status, if any.
pub open spec fn failure_kind(op: OpKind, status: u16) -> Option<ErrorKind> {
    match op {
        OpKind::Start => if status == 304 {
            Some(ErrorKind::AlreadyStarted)
        } else if status == 404 {
            Some(ErrorKind::NotFound)
        } else if status == 500 {
            Some(ErrorKind::ServerError)
        } else {
            None
        },
        OpKind::Stop => if status == 304 {
            Some(ErrorKind::AlreadyStopped)
        } else if status == 404 {
            Some(ErrorKind::NotFound)
        } else if status == 500 {
            Some(ErrorKind::ServerError)
        } else {
            None
        },
        OpKind::Inspect
        | OpKind::Restart
        | OpKind::Kill
        | OpKind::Pause
        | OpKind::Unpause
        | OpKind::Ps => if status == 404 {
            Some(ErrorKind::NotFound)
        } else if status == 500 {
            Some(ErrorKind::ServerError)
        } else {
            None
        },
        OpKind::Rename => if status == 404 {
            Some(ErrorKind::NotFound)
        } else if status == 409 {
            Some(ErrorKind::NameConflict)
        } else if status == 500 {
            Some(ErrorKind::ServerError)
        } else {
            None
        },
        OpKind::Remove | OpKind::ImageRemove => if status == 404 {
            Some(ErrorKind::NotFound)
        } else if status == 409 {
            Some(ErrorKind::Conflict)
        } else if status == 500 {
            Some(ErrorKind::ServerError)
        } else {
            None
        },
        OpKind::List => if status == 400 {
            Some(ErrorKind::BadParameter)
        } else if status == 500 {
            Some(ErrorKind::ServerError)
        } else {
            None
        },
        OpKind::Create | OpKind::ImageTag => if status == 400 {
            Some(ErrorKind::BadParameter)
        } else if status == 404 {
            Some(ErrorKind::NotFound)
        } else if status == 409 {
            Some(ErrorKind::Conflict)
        } else if status == 500 {
            Some(ErrorKind::ServerError)
        } else {
            None
        },
        OpKind::ArchiveGet | OpKind::Attach => if status == 400 {
            Some(ErrorKind::BadParameter)
        } else if status == 404 {
            Some(ErrorKind::NotFound)
        } else if status == 500 {
            Some(ErrorKind::ServerError)
        } else {
            None
        },
        OpKind::ArchiveStat | OpKind::ArchiveWrite => if status == 400 {
            Some(ErrorKind::BadParameter)
        } else if status == 403 {
            Some(ErrorKind::PermissionDenied)
        } else if status == 404 {
            Some(ErrorKind::NotFound)
        } else if status == 500 {
            Some(ErrorKind::ServerError)
        } else {
            None
        },
        OpKind::ExecCreate => if status == 404 {
            Some(ErrorKind::NotFound)
        } else if status == 409 {
            Some(ErrorKind::ContainerPaused)
        } else if status == 500 {
            Some(ErrorKind::ServerError)
        } else {
            None
        },
        OpKind::ExecStart => if status == 404 {
            Some(ErrorKind::NoSuchExec)
        } else if status == 409 {
            Some(ErrorKind::ContainerPaused)
        } else {
            None
        },
        OpKind::ImageCreate => if status == 404 {
            Some(ErrorKind::RepoNotFound)
        } else if status == 500 {
            Some(ErrorKind::ServerError)
        } else {
            None
        },
        OpKind::ImageInspect
        | OpKind::ImageHistory
        | OpKind::ImageSearch
        | OpKind::ImagePrune
        | OpKind::ImageBuild => if status == 404 {
            Some(ErrorKind::NotFound)
        } else if status == 500 {
            Some(ErrorKind::ServerError)
        } else {
            None
        },
        OpKind::ImageList | OpKind::ImageImport | OpKind::NetworkList | OpKind::Auth => if status
            == 500 {
            Some(ErrorKind::ServerError)
        } else {
            None
        },
        OpKind::NetworkRemove => if status == 403 {
            Some(ErrorKind::PredefinedNetwork)
        } else if status == 404 {
            Some(ErrorKind::NotFound)
        } else if status == 500 {
            Some(ErrorKind::ServerError)
        } else {
            None
        },
    }
}

/// The fixed default text for a known failure: what the error says when the
/// body carries no readable envelope.
pub open spec fn default_text_spec(op: OpKind, status: u16) -> Seq<char> {
    match failure_kind(op, status) {
        Some(ErrorKind::AlreadyStarted) => "container already started"@,
        Some(ErrorKind::AlreadyStopped) => "container already stopped"@,
        Some(ErrorKind::NameConflict) => "name already in use"@,
        Some(ErrorKind::Conflict) => "conflict"@,
        Some(ErrorKind::ContainerPaused) => "container is paused"@,
        Some(ErrorKind::NoSuchExec) => "no such exec instance"@,
        Some(ErrorKind::PredefinedNetwork) => "operation not supported for pre-defined networks"@,
        Some(ErrorKind::RepoNotFound) => "repository does not exist or no read access"@,
        Some(ErrorKind::PermissionDenied)
            => "permission denied, the volume or container rootfs is marked as read-only"@,
        Some(ErrorKind::BadParameter) => match op {
            OpKind::ArchiveGet | OpKind::ArchiveWrite => "container or path does not exist"@,
            _ => "bad parameter"@,
        },
        Some(ErrorKind::NotFound) => match op {
            OpKind::NetworkRemove => "no such network"@,
            OpKind::ImageRemove
            | OpKind::ImageTag
            | OpKind::ImageInspect
            | OpKind::ImageHistory
            | OpKind::ImageSearch
            | OpKind::ImagePrune
            | OpKind::ImageBuild => "no such image"@,
            OpKind::ArchiveStat => "container or path does not exist"@,
            _ => "no such container"@,
        },
        Some(ErrorKind::ServerError) => match op {
            OpKind::Restart | OpKind::Kill | OpKind::Pause | OpKind::Unpause
                => "internal server error"@,
            _ => "server error"@,
        },
        None => ""@,
    }
}

/// The fixed default text for a status outside both sets.
pub open spec fn unexpected_text_spec(op: OpKind) -> Seq<char> {
    match op {
        OpKind::Auth => "unknown error"@,
        _ => ""@,
    }
}

/// Best-effort enrichment: the engine-supplied message is appended to the
/// fixed text when the envelope parses, and the fixed text stands alone when
/// it does not.
pub open spec fn enrich_spec(default: Seq<char>, msg: Option<Seq<char>>) -> Seq<char> {
    match msg {
        Some(m) => default + " - "@ + m,
        None => default,
    }
}

/// What resolution yields, as a function of the operation, the status, the
/// body, and the body's parsed envelope.
pub open spec fn resolve_spec(
    op: OpKind,
    status: u16,
    body: Seq<u8>,
    msg: Option<Seq<char>>,
) -> Result<OutcomeV, EngineErrorV> {
    if is_success(op, status) {
        if payload_success(op, status) {
            Ok(OutcomeV::Payload(body))
        } else {
            Ok(OutcomeV::Empty)
        }
    } else {
        match failure_kind(op, status) {
            Some(kind) => Err(
                EngineErrorV::Protocol(kind, enrich_spec(default_text_spec(op, status), msg)),
            ),
            None => Err(
                EngineErrorV::UnexpectedStatus(status, enrich_spec(unexpected_text_spec(op), msg)),
            ),
        }
    }
}

/// The view of a resolution result.
pub open spec fn res_view(r: Result<Outcome, EngineError>) -> Result<OutcomeV, EngineErrorV> {
    match r {
        Ok(o) => Ok(o@),
        Err(e) => Err(e@),
    }
}

/// Whether the status is in the operation's success set.
pub fn is_success_code(op: OpKind, status: u16) -> (r: bool)
    ensures
        r == is_success(op, status),
{
    match op {
        OpKind::Start
        | OpKind::Stop
        | OpKind::Restart
        | OpKind::Kill
        | OpKind::Pause
        | OpKind::Unpause
        | OpKind::Rename
        | OpKind::NetworkRemove => status == 204,
        OpKind::Remove => status == 204 || status == 200,
        OpKind::Create | OpKind::ExecCreate | OpKind::ImageTag => status == 201,
        OpKind::Attach => status == 101,
        OpKind::Auth => status == 200 || status == 204,
        _ => status == 200,
    }
}

/// The named failure condition the table fixes for this status, if any.
pub fn lookup_failure(op: OpKind, status: u16) -> (r: Option<ErrorKind>)
    ensures
        r == failure_kind(op, status),
{
    match op {
        OpKind::Start => match status {
            304 => Some(ErrorKind::AlreadyStarted),
            404 => Some(ErrorKind::NotFound),
            500 => Some(ErrorKind::ServerError),
            _ => None,
        },
        OpKind::Stop => match status {
            304 => Some(ErrorKind::AlreadyStopped),
            404 => Some(ErrorKind::NotFound),
            500 => Some(ErrorKind::ServerError),
            _ => None,
        },
        OpKind::Inspect
        | OpKind::Restart
        | OpKind::Kill
        | OpKind::Pause
        | OpKind::Unpause
        | OpKind::Ps => match status {
            404 => Some(ErrorKind::NotFound),
            500 => Some(ErrorKind::ServerError),
            _ => None,
        },
        OpKind::Rename => match status {
            404 => Some(ErrorKind::NotFound),
            409 => Some(ErrorKind::NameConflict),
            500 => Some(ErrorKind::ServerError),
            _ => None,
        },
        OpKind::Remove | OpKind::ImageRemove => match status {
            404 => Some(ErrorKind::NotFound),
            409 => Some(ErrorKind::Conflict),
            500 => Some(ErrorKind::ServerError),
            _ => None,
        },
        OpKind::List => match status {
            400 => Some(ErrorKind::BadParameter),
            500 => Some(ErrorKind::ServerError),
            _ => None,
        },
        OpKind::Create | OpKind::ImageTag => match status {
            400 => Some(ErrorKind::BadParameter),
            404 => Some(ErrorKind::NotFound),
            409 => Some(ErrorKind::Conflict),
            500 => Some(ErrorKind::ServerError),
            _ => None,
        },
        OpKind::ArchiveGet | OpKind::Attach => match status {
            400 => Some(ErrorKind::BadParameter),
            404 => Some(ErrorKind::NotFound),
            500 => Some(ErrorKind::ServerError),
            _ => None,
        },
        OpKind::ArchiveStat | OpKind::ArchiveWrite => match status {
            400 => Some(ErrorKind::BadParameter),
            403 => Some(ErrorKind::PermissionDenied),
            404 => Some(ErrorKind::NotFound),
            500 => Some(ErrorKind::ServerError),
            _ => None,
        },
        OpKind::ExecCreate => match status {
            404 => Some(ErrorKind::NotFound),
            409 => Some(ErrorKind::ContainerPaused),
            500 => Some(ErrorKind::ServerError),
            _ => None,
        },
        OpKind::ExecStart => match status {
            404 => Some(ErrorKind::NoSuchExec),
            409 => Some(ErrorKind::ContainerPaused),
            _ => None,
        },
        OpKind::ImageCreate => match status {
            404 => Some(ErrorKind::RepoNotFound),
            500 => Some(ErrorKind::ServerError),
            _ => None,
        },
        OpKind::ImageInspect
        | OpKind::ImageHistory
        | OpKind::ImageSearch
        | OpKind::ImagePrune
        | OpKind::ImageBuild => match status {
            404 => Some(ErrorKind::NotFound),
            500 => Some(ErrorKind::ServerError),
            _ => None,
        },
        OpKind::ImageList | OpKind::ImageImport | OpKind::NetworkList | OpKind::Auth => match status {
            500 => Some(ErrorKind::ServerError),
            _ => None,
        },
        OpKind::NetworkRemove => match status {
            403 => Some(ErrorKind::PredefinedNetwork),
            404 => Some(ErrorKind::NotFound),
            500 => Some(ErrorKind::ServerError),
            _ => None,
        },
    }
}

/// The fixed default text for a known failure of this operation at this
/// status.
pub fn default_text(op: OpKind, status: u16) -> (r: &'static str)
    ensures
        r@ == default_text_spec(op, status),
{
    match lookup_failure(op, status) {
        Some(ErrorKind::AlreadyStarted) => "container already started",
        Some(ErrorKind::AlreadyStopped) => "container already stopped",
        Some(ErrorKind::NameConflict) => "name already in use",
        Some(ErrorKind::Conflict) => "conflict",
        Some(ErrorKind::ContainerPaused) => "container is paused",
        Some(ErrorKind::NoSuchExec) => "no such exec instance",
        Some(ErrorKind::PredefinedNetwork) => "operation not supported for pre-defined networks",
        Some(ErrorKind::RepoNotFound) => "repository does not exist or no read access",
        Some(ErrorKind::PermissionDenied)
            => "permission denied, the volume or container rootfs is marked as read-only",
        Some(ErrorKind::BadParameter) => match op {
            OpKind::ArchiveGet | OpKind::ArchiveWrite => "container or path does not exist",
            _ => "bad parameter",
        },
        Some(ErrorKind::NotFound) => match op {
            OpKind::NetworkRemove => "no such network",
            OpKind::ImageRemove
            | OpKind::ImageTag
            | OpKind::ImageInspect
            | OpKind::ImageHistory
            | OpKind::ImageSearch
            | OpKind::ImagePrune
            | OpKind::ImageBuild => "no such image",
            OpKind::ArchiveStat => "container or path does not exist",
            _ => "no such container",
        },
        Some(ErrorKind::ServerError) => match op {
            OpKind::Restart | OpKind::Kill | OpKind::Pause | OpKind::Unpause
                => "internal server error",
            _ => "server error",
        },
        None => "",
    }
}

/// The fixed default text for a status outside both sets of this operation.
pub fn unexpected_text(op: OpKind) -> (r: &'static str)
    ensures
        r@ == unexpected_text_spec(op),
{
    match op {
        OpKind::Auth => "unknown error",
        _ => "",
    }
}

/// Attaches the engine-supplied message to the fixed text when the body
/// parses as the error envelope; the fixed text stands alone otherwise.
pub fn enrich(default: &str, body: &Vec<u8>) -> (r: String)
    ensures
        r@ == enrich_spec(default@, message_of(body@)),
{
    match parse_error_message(body) {
        Some(m) => {
            let mut out = default.to_owned();
            out.append(" - ");
            out.append(m.as_str());
            out
        },
        None => default.to_owned(),
    }
}

/// Resolves one raw response against one operation's status table.
pub fn resolve(op: OpKind, status: u16, body: Vec<u8>) -> (r: Result<Outcome, EngineError>)
    ensures
        res_view(r) == resolve_spec(op, status, body@, message_of(body@)),
{
    if is_success_code(op, status) {
        if payload_success_code(op, status) {
            Ok(Outcome::Payload(body))
        } else {
            Ok(Outcome::Empty)
        }
    } else {
        match lookup_failure(op, status) {
            Some(kind) => Err(
                EngineError::Protocol(kind, enrich(default_text(op, status), &body)),
            ),
            None => Err(
                EngineError::UnexpectedStatus(status, enrich(unexpected_text(op), &body)),
            ),
        }
    }
}

/// Whether a success at this status hands back the body.
pub fn payload_success_code(op: OpKind, status: u16) -> (r: bool)
    ensures
        r == payload_success(op, status),
{
    match op {
        OpKind::Inspect
        | OpKind::List
        | OpKind::Ps
        | OpKind::ArchiveGet
        | OpKind::ExecCreate
        | OpKind::ExecStart
        | OpKind::ImageList
        | OpKind::ImageInspect
        | OpKind::ImageHistory
        | OpKind::ImageSearch
        | OpKind::ImagePrune
        | OpKind::NetworkList => true,
        OpKind::Auth => status == 200,
        _ => false,
    }
}

/// A status in the success set is never a known failure, and resolution on
/// it always succeeds — with the payload where the operation carries one and
/// the empty success where it does not — whatever the body and envelope
/// hold.
pub proof fn lemma_success_never_fails(op: OpKind, status: u16, body: Seq<u8>, msg: Option<
    Seq<char>,
>)
    requires
        is_success(op, status),
    ensures
        failure_kind(op, status) is None,
        payload_success(op, status) ==> resolve_spec(op, status, body, msg) == Result::<
            OutcomeV,
            EngineErrorV,
        >::Ok(OutcomeV::Payload(body)),
        !payload_success(op, status) ==> resolve_spec(op, status, body, msg) == Result::<
            OutcomeV,
            EngineErrorV,
        >::Ok(OutcomeV::Empty),
{
}

/// A status in the known-failure set resolves to exactly the condition the
/// table maps it to, with the enriched or default text, whatever the body
/// holds.
pub proof fn lemma_known_failure_exact(op: OpKind, status: u16, body: Seq<u8>, msg: Option<
    Seq<char>,
>)
    requires
        failure_kind(op, status) is Some,
    ensures
        !is_success(op, status),
        resolve_spec(op, status, body, msg) == Result::<OutcomeV, EngineErrorV>::Err(
            EngineErrorV::Protocol(
                failure_kind(op, status)->Some_0,
                enrich_spec(default_text_spec(op, status), msg),
            ),
        ),
{
}

/// A status in neither set resolves to an unexpected-status error carrying
/// that very status.
pub proof fn lemma_unmapped_status(op: OpKind, status: u16, body: Seq<u8>, msg: Option<Seq<char>>)
    requires
        !is_success(op, status),
        failure_kind(op, status) is None,
    ensures
        resolve_spec(op, status, body, msg) == Result::<OutcomeV, EngineErrorV>::Err(
            EngineErrorV::UnexpectedStatus(status, enrich_spec(unexpected_text_spec(op), msg)),
        ),
{
}

/// Enrichment is optional and never fatal: when the body yields no envelope,
/// a known failure still resolves to the exact mapped condition, with the
/// operation's fixed default text — never to a decode error.
pub proof fn lemma_enrichment_non_fatal(op: OpKind, status: u16, body: Seq<u8>)
    requires
        failure_kind(op, status) is Some,
    ensures
        resolve_spec(op, status, body, None) == Result::<OutcomeV, EngineErrorV>::Err(
            EngineErrorV::Protocol(failure_kind(op, status)->Some_0, default_text_spec(op, status)),
        ),
{
}

/// The classification never depends on the body or its envelope: two
/// resolutions of the same operation and status agree on success, on the
/// failure condition, and on the carried status code; only the attached text
/// can differ.
pub proof fn lemma_body_independent(
    op: OpKind,
    status: u16,
    body1: Seq<u8>,
    body2: Seq<u8>,
    msg1: Option<Seq<char>>,
    msg2: Option<Seq<char>>,
)
    ensures
        resolve_spec(op, status, body1, msg1) is Ok <==> resolve_spec(op, status, body2, msg2) is Ok,
        match (resolve_spec(op, status, body1, msg1), resolve_spec(op, status, body2, msg2)) {
            (Err(EngineErrorV::Protocol(k1, _)), Err(EngineErrorV::Protocol(k2, _))) => k1 == k2,
            (Err(EngineErrorV::UnexpectedStatus(c1, _)), Err(
                EngineErrorV::UnexpectedStatus(c2, _),
            )) => c1 == c2 && c1 == status,
            (Ok(_), Ok(_)) => true,
            _ => false,
        },
{
}

} // verus!
