use vstd::prelude::*;

use crate::report::OutcomeModel;
use crate::report::ThreadMessage;

verus! {

/// The fixed taxonomy of per-record failure causes. None of them aborts
/// the batch: each is recovered, logged, and the run continues.
#[derive(Clone, Copy, Debug, PartialEq, Eq, Structural)]
pub enum FetchError {
    /// The destination path is already populated: the item is treated as
    /// already done and no network activity is performed.
    AlreadyExists,
    /// Transport-level failure on the stage-one resolution request.
    RequestFailed,
    /// The resolution request succeeded but its body could not be read as
    /// the next-stage URL.
    ResolutionFailed,
    /// The asset-bytes request failed, was answered with a non-success
    /// status, or its body could not be read.
    TransferFailed,
    /// The fetched bytes could not be written to the destination path.
    WriteFailed,
}

impl FetchError {
    /// The human-readable cause that the error log carries. One exception
    /// stands apart: a stage-two body-read failure is classified
    /// `TransferFailed` but carries its own message (see
    /// `transfer_unreadable_model`), so the two stage-two failure points
    /// stay diagnosable.
    pub open spec fn message_spec(self) -> Seq<char> {
        match self {
            FetchError::AlreadyExists => "File already exists."@,
            FetchError::RequestFailed => "Problem with snapchat response."@,
            FetchError::ResolutionFailed => "Error retrieving AWS link from snapchat."@,
            FetchError::TransferFailed => "Problem with AWS response."@,
            FetchError::WriteFailed => "Problem writing file to disk."@,
        }
    }

    /// The human-readable cause that the error log carries.
    pub fn message(&self) -> (r: &'static str)
        ensures
            r@ == self.message_spec(),
    {
        match self {
            FetchError::AlreadyExists => "File already exists.",
            FetchError::RequestFailed => "Problem with snapchat response.",
            FetchError::ResolutionFailed => "Error retrieving AWS link from snapchat.",
            FetchError::TransferFailed => "Problem with AWS response.",
            FetchError::WriteFailed => "Problem writing file to disk.",
        }
    }
}

/// What came back for the stage-one resolution request: a successful
/// response's body read as the real asset location, a transport-level
/// failure, a response carrying a non-success status, or a body that could
/// not be read.
pub enum ResolutionOutcome {
    Located(String),
    SendFailed,
    NonSuccess,
    Unreadable,
}

/// What came back for the stage-two retrieval request: a successful
/// response's raw asset bytes, a transport-level failure, a response
/// carrying a non-success status, or a body that could not be read.
pub enum TransferOutcome {
    Content(Vec<u8>),
    SendFailed,
    NonSuccess,
    Unreadable,
}

/// The phases a fetch task passes through. Each phase up to `Report` names
/// the single outside action its runner must perform next; `Report` is the
/// one completion message the task emits, whatever happened before.
pub enum TaskPhase {
    /// Issue the stage-one resolution request (an empty-body submission)
    /// against the record's raw link.
    Resolve { link: String },
    /// Issue the stage-two retrieval request against the resolved URL.
    Transfer { url: String },
    /// Write the fetched bytes to the destination path.
    Persist { content: Vec<u8> },
    /// Deliver the completion message to the orchestrator.
    Report { message: ThreadMessage },
}

/// The mathematical content of a task phase.
pub enum PhaseModel {
    Resolve { link: Seq<char> },
    Transfer { url: Seq<char> },
    Persist { content: Seq<u8> },
    Report { outcome: OutcomeModel },
}

impl View for TaskPhase {
    type V = PhaseModel;

    open spec fn view(&self) -> PhaseModel {
        match self {
            TaskPhase::Resolve { link } => PhaseModel::Resolve { link: link@ },
            TaskPhase::Transfer { url } => PhaseModel::Transfer { url: url@ },
            TaskPhase::Persist { content } => PhaseModel::Persist { content: content@ },
            TaskPhase::Report { message } => PhaseModel::Report { outcome: message@ },
        }
    }
}

/// The outcome model of a task that failed with the given cause.
pub open spec fn failure_model(id: nat, error: FetchError) -> OutcomeModel {
    OutcomeModel { id, failure: Some(error.message_spec()) }
}

/// The outcome model of a stage-two body-read failure: classified
/// `TransferFailed` like the other stage-two failures, but carrying its own
/// message so the log tells the failure points apart.
pub open spec fn transfer_unreadable_model(id: nat) -> OutcomeModel {
    OutcomeModel { id, failure: Some("Error receiving image bytes."@) }
}

/// The first decision of a task: a record whose destination path is
/// already populated reports `AlreadyExists` and performs no network
/// activity; otherwise the task proceeds to the resolution request.
pub open spec fn start_spec(id: nat, link: Seq<char>, file_exists: bool) -> PhaseModel {
    if file_exists {
        PhaseModel::Report { outcome: failure_model(id, FetchError::AlreadyExists) }
    } else {
        PhaseModel::Resolve { link }
    }
}

/// The decision after the resolution request: a successful response's body
/// is itself the real asset location and the task proceeds to retrieve it;
/// a transport failure or a non-success status reports `RequestFailed`; an
/// unreadable body reports `ResolutionFailed`.
pub open spec fn resolution_spec(id: nat, outcome: ResolutionOutcome) -> PhaseModel {
    match outcome {
        ResolutionOutcome::Located(url) => PhaseModel::Transfer { url: url@ },
        ResolutionOutcome::SendFailed => PhaseModel::Report {
            outcome: failure_model(id, FetchError::RequestFailed),
        },
        ResolutionOutcome::NonSuccess => PhaseModel::Report {
            outcome: failure_model(id, FetchError::RequestFailed),
        },
        ResolutionOutcome::Unreadable => PhaseModel::Report {
            outcome: failure_model(id, FetchError::ResolutionFailed),
        },
    }
}

/// The decision after the retrieval request: a successful response's body
/// is the raw asset content and the task proceeds to persist it; any
/// stage-two failure reports `TransferFailed`, the unreadable body with its
/// own message.
pub open spec fn transfer_spec(id: nat, outcome: TransferOutcome) -> PhaseModel {
    match outcome {
        TransferOutcome::Content(bytes) => PhaseModel::Persist { content: bytes@ },
        TransferOutcome::SendFailed => PhaseModel::Report {
            outcome: failure_model(id, FetchError::TransferFailed),
        },
        TransferOutcome::NonSuccess => PhaseModel::Report {
            outcome: failure_model(id, FetchError::TransferFailed),
        },
        TransferOutcome::Unreadable => PhaseModel::Report {
            outcome: transfer_unreadable_model(id),
        },
    }
}

/// The decision after the disk write: success reports a clean outcome, a
/// failed write still reports — the task never vanishes silently.
pub open spec fn persist_spec(id: nat, write_ok: bool) -> OutcomeModel {
    if write_ok {
        OutcomeModel { id, failure: None }
    } else {
        failure_model(id, FetchError::WriteFailed)
    }
}

/// The single completion outcome of one whole task, as a function of the
/// responses of its environment: whether the destination already existed,
/// what each of the two network exchanges returned, and whether the disk
/// write succeeded.
pub open spec fn protocol_spec(
    id: nat,
    file_exists: bool,
    resolution: ResolutionOutcome,
    transfer: TransferOutcome,
    write_ok: bool,
) -> OutcomeModel {
    if file_exists {
        failure_model(id, FetchError::AlreadyExists)
    } else {
        match resolution {
            ResolutionOutcome::SendFailed => failure_model(id, FetchError::RequestFailed),
            ResolutionOutcome::NonSuccess => failure_model(id, FetchError::RequestFailed),
            ResolutionOutcome::Unreadable => failure_model(id, FetchError::ResolutionFailed),
            ResolutionOutcome::Located(_) => match transfer {
                TransferOutcome::SendFailed => failure_model(id, FetchError::TransferFailed),
                TransferOutcome::NonSuccess => failure_model(id, FetchError::TransferFailed),
                TransferOutcome::Unreadable => transfer_unreadable_model(id),
                TransferOutcome::Content(_) => persist_spec(id, write_ok),
            },
        }
    }
}

/// Begin the task for record `id`: skip to the completion report when the
/// destination path is already populated, else head for the resolution
/// request.
pub fn start_task(id: usize, link: String, file_exists: bool) -> (p: TaskPhase)
    ensures
        p@ == start_spec(id as nat, link@, file_exists),
{
    if file_exists {
        TaskPhase::Report { message: ThreadMessage::error(id, FetchError::AlreadyExists.message()) }
    } else {
        TaskPhase::Resolve { link }
    }
}

/// Decide the task's next phase from what the resolution request returned.
pub fn after_resolution(id: usize, outcome: ResolutionOutcome) -> (p: TaskPhase)
    ensures
        p@ == resolution_spec(id as nat, outcome),
{
    match outcome {
        ResolutionOutcome::Located(url) => TaskPhase::Transfer { url },
        ResolutionOutcome::SendFailed => TaskPhase::Report {
            message: ThreadMessage::error(id, FetchError::RequestFailed.message()),
        },
        ResolutionOutcome::NonSuccess => TaskPhase::Report {
            message: ThreadMessage::error(id, FetchError::RequestFailed.message()),
        },
        ResolutionOutcome::Unreadable => TaskPhase::Report {
            message: ThreadMessage::error(id, FetchError::ResolutionFailed.message()),
        },
    }
}

/// Decide the task's next phase from what the retrieval request returned.
pub fn after_transfer(id: usize, outcome: TransferOutcome) -> (p: TaskPhase)
    ensures
        p@ == transfer_spec(id as nat, outcome),
{
    match outcome {
        TransferOutcome::Content(content) => TaskPhase::Persist { content },
        TransferOutcome::SendFailed => TaskPhase::Report {
            message: ThreadMessage::error(id, FetchError::TransferFailed.message()),
        },
        TransferOutcome::NonSuccess => TaskPhase::Report {
            message: ThreadMessage::error(id, FetchError::TransferFailed.message()),
        },
        TransferOutcome::Unreadable => TaskPhase::Report {
            message: ThreadMessage::error(id, "Error receiving image bytes."),
        },
    }
}

/// Build the task's completion message after the disk write.
pub fn after_persist(id: usize, write_ok: bool) -> (m: ThreadMessage)
    ensures
        m@ == persist_spec(id as nat, write_ok),
{
    if write_ok {
        ThreadMessage::no_error(id)
    } else {
        ThreadMessage::error(id, FetchError::WriteFailed.message())
    }
}

/// The two-stage exchange law: a resolution endpoint that returns URL `U`
/// sends the task to retrieve exactly `U`; an asset endpoint that returns
/// bytes `B` completes the task with exactly `B` to persist; a failed
/// resolution send or a non-success resolution status reports
/// `RequestFailed`, an unreadable resolution body reports
/// `ResolutionFailed`, and any stage-two failure reports `TransferFailed`.
pub proof fn lemma_two_stage_exchange(id: nat, url: String, content: Vec<u8>)
    ensures
        resolution_spec(id, ResolutionOutcome::Located(url)) == (PhaseModel::Transfer {
            url: url@,
        }),
        transfer_spec(id, TransferOutcome::Content(content)) == (PhaseModel::Persist {
            content: content@,
        }),
        resolution_spec(id, ResolutionOutcome::SendFailed) == (PhaseModel::Report {
            outcome: failure_model(id, FetchError::RequestFailed),
        }),
        resolution_spec(id, ResolutionOutcome::NonSuccess) == (PhaseModel::Report {
            outcome: failure_model(id, FetchError::RequestFailed),
        }),
        resolution_spec(id, ResolutionOutcome::Unreadable) == (PhaseModel::Report {
            outcome: failure_model(id, FetchError::ResolutionFailed),
        }),
        transfer_spec(id, TransferOutcome::SendFailed) == (PhaseModel::Report {
            outcome: failure_model(id, FetchError::TransferFailed),
        }),
        transfer_spec(id, TransferOutcome::NonSuccess) == (PhaseModel::Report {
            outcome: failure_model(id, FetchError::TransferFailed),
        }),
        transfer_spec(id, TransferOutcome::Unreadable) == (PhaseModel::Report {
            outcome: transfer_unreadable_model(id),
        }),
        protocol_spec(id, false, ResolutionOutcome::Located(url), TransferOutcome::Content(content), true)
            == (OutcomeModel { id, failure: None::<Seq<char>> }),
{
}

/// The idempotent-skip law: when the destination path is already
/// populated, the task's first decision is already its completion report,
/// with cause `AlreadyExists` — whatever the network or the disk would
/// have answered.
pub proof fn lemma_existing_file_skipped(
    id: nat,
    link: Seq<char>,
    resolution: ResolutionOutcome,
    transfer: TransferOutcome,
    write_ok: bool,
)
    ensures
        start_spec(id, link, true) == (PhaseModel::Report {
            outcome: failure_model(id, FetchError::AlreadyExists),
        }),
        protocol_spec(id, true, resolution, transfer, write_ok) == failure_model(
            id,
            FetchError::AlreadyExists,
        ),
{
}

/// Every launched task resolves to exactly one completion outcome, and
/// that outcome carries the task's own record index.
pub proof fn lemma_task_reports_own_index(
    id: nat,
    file_exists: bool,
    resolution: ResolutionOutcome,
    transfer: TransferOutcome,
    write_ok: bool,
)
    ensures
        protocol_spec(id, file_exists, resolution, transfer, write_ok).id == id,
{
}

/// Chaining the per-stage decisions yields exactly the protocol outcome:
/// whichever stage first reaches a `Report` phase reports precisely
/// `protocol_spec` of the environment's responses, and the write decision
/// after a completed transfer does too.
pub proof fn lemma_stages_follow_protocol(
    id: nat,
    link: Seq<char>,
    file_exists: bool,
    resolution: ResolutionOutcome,
    transfer: TransferOutcome,
    write_ok: bool,
)
    ensures
        start_spec(id, link, file_exists) matches PhaseModel::Report { outcome } ==> outcome
            == protocol_spec(id, file_exists, resolution, transfer, write_ok),
        !file_exists ==> (resolution_spec(id, resolution) matches PhaseModel::Report { outcome }
            ==> outcome == protocol_spec(id, file_exists, resolution, transfer, write_ok)),
        !file_exists && resolution_spec(id, resolution) is Transfer ==> (transfer_spec(id, transfer)
            matches PhaseModel::Report { outcome } ==> outcome == protocol_spec(
            id,
            file_exists,
            resolution,
            transfer,
            write_ok,
        )),
        !file_exists && resolution_spec(id, resolution) is Transfer && transfer_spec(id, transfer)
            is Persist ==> persist_spec(id, write_ok) == protocol_spec(
            id,
            file_exists,
            resolution,
            transfer,
            write_ok,
        ),
{
}

} // verus!
