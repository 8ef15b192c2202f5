//! The streaming downloader: where to save, and what to do at each step of
//! the transfer.

use crate::def::Args;
use crate::error::DownloadError;
use crate::text::{text_result, text_view};
use vstd::prelude::*;

verus! {

/// The directory to save in: the one given explicitly; else the one from the
/// environment where it exists; else the current directory, which must be
/// known then.
pub open spec fn directory_choice(
    explicit: Option<Seq<char>>,
    from_environment: Option<Seq<char>>,
    environment_exists: bool,
    current: Option<Seq<char>>,
) -> Result<Seq<char>, DownloadError> {
    match explicit {
        Some(directory) => Ok(directory),
        None => match current {
            None => Err(DownloadError::Io),
            Some(here) => match from_environment {
                Some(directory) => if environment_exists {
                    Ok(directory)
                } else {
                    Ok(here)
                },
                None => Ok(here),
            },
        },
    }
}

/// Chooses the directory to save in. `from_environment` is the value of the
/// output variable, `environment_exists` whether that path exists, `current`
/// the current directory or `None` where it cannot be had.
pub fn get_dest_directory(
    args: &Args,
    from_environment: Option<String>,
    environment_exists: bool,
    current: Option<String>,
) -> (res: Result<String, DownloadError>)
    ensures
        text_result(res) == directory_choice(
            text_view(args.output),
            text_view(from_environment),
            environment_exists,
            text_view(current),
        ),
{
    if let Some(directory) = &args.output {
        return Ok(directory.clone());
    }
    let here: String = match current {
        Some(here) => here,
        None => { return Err(DownloadError::Io); },
    };
    match from_environment {
        Some(directory) => if environment_exists {
            Ok(directory)
        } else {
            Ok(here)
        },
        None => Ok(here),
    }
}

/// The smaller of two numbers.
pub open spec fn least(a: int, b: int) -> int {
    if a <= b {
        a
    } else {
        b
    }
}

/// The sum of the lengths of a run of chunks.
pub open spec fn total_length(chunks: Seq<u64>) -> nat
    decreases chunks.len(),
{
    if chunks.len() == 0 {
        0
    } else {
        total_length(chunks.drop_last()) + chunks.last() as nat
    }
}

/// The progress of a transfer.
#[derive(Debug, Clone, Copy, PartialEq, Eq, Structural)]
pub struct Progress {
    /// The length that the response declared.
    pub total: u64,
    /// The bytes written so far; it stops at `u64::MAX`.
    pub written: u64,
    /// The bytes reported as downloaded: never more than `total`.
    pub position: u64,
}

impl Progress {
    /// Whether the reported position is the bytes written, capped at the
    /// declared length.
    pub open spec fn wf(&self) -> bool {
        self.position == least(self.written as int, self.total as int)
    }

    /// The progress after a chunk of `length` bytes.
    pub open spec fn advanced(self, length: u64) -> Progress {
        Progress {
            total: self.total,
            written: least(self.written + length, u64::MAX as int) as u64,
            position: least(self.position + length, self.total as int) as u64,
        }
    }

    /// The progress after the chunks `chunks`, in order.
    pub open spec fn after(self, chunks: Seq<u64>) -> Progress
        decreases chunks.len(),
    {
        if chunks.len() == 0 {
            self
        } else {
            self.after(chunks.drop_last()).advanced(chunks.last())
        }
    }

    /// The progress of a transfer of `total` bytes before its first chunk.
    pub fn new(total: u64) -> (res: Progress)
        ensures
            res == (Progress { total, written: 0, position: 0 }),
            res.wf(),
    {
        Progress { total, written: 0, position: 0 }
    }

    /// Counts a chunk of `length` bytes: the bytes written grow by `length`,
    /// the reported position too, but not beyond the declared length.
    pub fn advance(&mut self, length: u64)
        ensures
            *final(self) == old(self).advanced(length),
            old(self).wf() ==> final(self).wf(),
            final(self).position <= final(self).total,
            old(self).wf() ==> old(self).position <= final(self).position,
    {
        self.written = self.written.saturating_add(length);
        self.position = if self.position >= self.total || length >= self.total - self.position {
            self.total
        } else {
            self.position + length
        };
    }

    /// After any run of chunks the position is the sum of their lengths,
    /// capped at the declared length, whatever the chunk boundaries, and no
    /// chunk moves it back; the bytes written are the whole sum as long as it
    /// can be counted.
    pub proof fn lemma_after_chunks(total: u64, chunks: Seq<u64>)
        ensures
            (Progress { total, written: 0, position: 0 }).after(chunks).wf(),
            (Progress { total, written: 0, position: 0 }).after(chunks).total == total,
            (Progress { total, written: 0, position: 0 }).after(chunks).position == least(
                total_length(chunks) as int,
                total as int,
            ),
            (Progress { total, written: 0, position: 0 }).after(chunks).position <= total,
            (Progress { total, written: 0, position: 0 }).after(chunks).written == least(
                total_length(chunks) as int,
                u64::MAX as int,
            ),
            chunks.len() > 0 ==> (Progress { total, written: 0, position: 0 }).after(
                chunks.drop_last(),
            ).position <= (Progress { total, written: 0, position: 0 }).after(chunks).position,
        decreases chunks.len(),
    {
        if chunks.len() > 0 {
            Self::lemma_after_chunks(total, chunks.drop_last());
        }
    }
}

/// Where a transfer stands.
#[derive(Debug, Clone, Copy, PartialEq, Eq, Structural)]
pub enum DownloadState {
    /// Nothing is known yet of the destination.
    Checking,
    /// The request is out.
    Requesting,
    /// The response declared this length; the destination is being created.
    Opening { total: u64 },
    /// The body is arriving.
    Receiving(Progress),
    /// The transfer is over.
    Finished,
}

/// What happened outside.
#[derive(Debug, Clone, Copy, PartialEq, Eq, Structural)]
pub enum DownloadEvent {
    /// The destination was looked at.
    DestinationChecked { exists: bool },
    /// The response came, with or without a declared length.
    ResponseReceived { content_length: Option<u64> },
    /// The request failed.
    RequestFailed,
    /// The destination was created.
    DestinationCreated,
    /// The destination could not be created.
    DestinationRefused,
    /// A chunk of `length` bytes came; `stored` tells whether it was appended
    /// to the destination.
    ChunkReceived { length: u64, stored: bool },
    /// The stream broke.
    StreamFailed,
    /// The stream ended.
    StreamEnded,
}

/// What to do next.
#[derive(Debug, Clone, Copy, PartialEq, Eq, Structural)]
pub enum DownloadAction {
    /// Say that the file is already there and end the run successfully.
    SkipExisting,
    /// Send the request for the address.
    SendRequest,
    /// Create the destination.
    CreateDestination,
    /// Show this many bytes as downloaded and wait for the next chunk.
    Report { position: u64 },
    /// Say that the download is complete.
    Complete,
    /// Give up with this failure.
    Fail(DownloadError),
    /// Nothing: the transfer is over.
    Idle,
}

/// The state and the action that follow `event` in `state`. An event that the
/// state does not expect ends the transfer with a failure; after the end
/// nothing happens any more.
pub open spec fn next(state: DownloadState, event: DownloadEvent) -> (DownloadState, DownloadAction) {
    match (state, event) {
        (DownloadState::Finished, _) => (DownloadState::Finished, DownloadAction::Idle),
        (DownloadState::Checking, DownloadEvent::DestinationChecked { exists }) => if exists {
            (DownloadState::Finished, DownloadAction::SkipExisting)
        } else {
            (DownloadState::Requesting, DownloadAction::SendRequest)
        },
        (DownloadState::Requesting, DownloadEvent::ResponseReceived { content_length }) => match content_length {
            Some(total) => (DownloadState::Opening { total }, DownloadAction::CreateDestination),
            None => (DownloadState::Finished, DownloadAction::Fail(DownloadError::UnknownLength)),
        },
        (DownloadState::Opening { total }, DownloadEvent::DestinationCreated) => (
            DownloadState::Receiving(Progress { total, written: 0, position: 0 }),
            DownloadAction::Report { position: 0 },
        ),
        (DownloadState::Receiving(progress), DownloadEvent::ChunkReceived { length, stored }) => if stored {
            (
                DownloadState::Receiving(progress.advanced(length)),
                DownloadAction::Report { position: progress.advanced(length).position },
            )
        } else {
            (DownloadState::Finished, DownloadAction::Fail(DownloadError::Io))
        },
        (DownloadState::Receiving(_), DownloadEvent::StreamEnded) => (
            DownloadState::Finished,
            DownloadAction::Complete,
        ),
        _ => (DownloadState::Finished, DownloadAction::Fail(DownloadError::Io)),
    }
}

impl DownloadState {
    /// Whether the progress of a running transfer is well-formed.
    pub open spec fn wf(&self) -> bool {
        match self {
            DownloadState::Receiving(progress) => progress.wf(),
            _ => true,
        }
    }

    /// The state of a transfer before anything is done.
    pub fn new() -> (res: DownloadState)
        ensures
            res == DownloadState::Checking,
            res.wf(),
    {
        DownloadState::Checking
    }

    /// Takes `event` and says what to do next.
    pub fn step(self, event: DownloadEvent) -> (res: (DownloadState, DownloadAction))
        ensures
            res == next(self, event),
            self.wf() ==> res.0.wf(),
            res.1 matches DownloadAction::Report { position } ==> res.0 matches DownloadState::Receiving(
                progress,
            ) && position == progress.position && position <= progress.total,
    {
        match (self, event) {
            (DownloadState::Finished, _) => (DownloadState::Finished, DownloadAction::Idle),
            (DownloadState::Checking, DownloadEvent::DestinationChecked { exists }) => {
                if exists {
                    (DownloadState::Finished, DownloadAction::SkipExisting)
                } else {
                    (DownloadState::Requesting, DownloadAction::SendRequest)
                }
            },
            (DownloadState::Requesting, DownloadEvent::ResponseReceived { content_length }) => {
                match content_length {
                    Some(total) => (
                        DownloadState::Opening { total },
                        DownloadAction::CreateDestination,
                    ),
                    None => (
                        DownloadState::Finished,
                        DownloadAction::Fail(DownloadError::UnknownLength),
                    ),
                }
            },
            (DownloadState::Opening { total }, DownloadEvent::DestinationCreated) => (
                DownloadState::Receiving(Progress::new(total)),
                DownloadAction::Report { position: 0 },
            ),
            (DownloadState::Receiving(progress), DownloadEvent::ChunkReceived { length, stored }) => {
                if stored {
                    let mut progress: Progress = progress;
                    progress.advance(length);
                    (
                        DownloadState::Receiving(progress),
                        DownloadAction::Report { position: progress.position },
                    )
                } else {
                    (DownloadState::Finished, DownloadAction::Fail(DownloadError::Io))
                }
            },
            (DownloadState::Receiving(_), DownloadEvent::StreamEnded) => (
                DownloadState::Finished,
                DownloadAction::Complete,
            ),
            _ => (DownloadState::Finished, DownloadAction::Fail(DownloadError::Io)),
        }
    }
}

/// The actions that the events `events` bring about, one each, from `state`.
pub open spec fn actions_of(state: DownloadState, events: Seq<DownloadEvent>) -> Seq<DownloadAction>
    decreases events.len(),
{
    if events.len() == 0 {
        Seq::empty()
    } else {
        seq![next(state, events[0]).1] + actions_of(next(state, events[0]).0, events.drop_first())
    }
}

/// Once a transfer is over, no event brings about anything.
pub proof fn lemma_finished_stays_idle(events: Seq<DownloadEvent>)
    ensures
        actions_of(DownloadState::Finished, events).len() == events.len(),
        forall|i: int|
            0 <= i < events.len() ==> (#[trigger] actions_of(DownloadState::Finished, events)[i])
                == DownloadAction::Idle,
    decreases events.len(),
{
    if events.len() > 0 {
        lemma_finished_stays_idle(events.drop_first());
    }
}

/// Past the look at the destination, no request is sent.
pub proof fn lemma_no_request_once_started(state: DownloadState, events: Seq<DownloadEvent>)
    requires
        state != DownloadState::Checking,
    ensures
        actions_of(state, events).len() == events.len(),
        forall|i: int|
            0 <= i < events.len() ==> (#[trigger] actions_of(state, events)[i])
                != DownloadAction::SendRequest,
    decreases events.len(),
{
    if events.len() > 0 {
        lemma_no_request_once_started(next(state, events[0]).0, events.drop_first());
    }
}

/// Where the destination is already there, the transfer ends at once and
/// successfully: the file is skipped and, whatever happens afterwards, no
/// request is sent and nothing fails.
pub proof fn lemma_existing_destination_sends_no_request(events: Seq<DownloadEvent>)
    requires
        events.len() > 0,
        events[0] == (DownloadEvent::DestinationChecked { exists: true }),
    ensures
        actions_of(DownloadState::Checking, events)[0] == DownloadAction::SkipExisting,
        forall|i: int|
            0 <= i < events.len() ==> (#[trigger] actions_of(DownloadState::Checking, events)[i])
                != DownloadAction::SendRequest,
        forall|i: int|
            0 <= i < events.len() ==> !((#[trigger] actions_of(
                DownloadState::Checking,
                events,
            )[i]) is Fail),
{
    lemma_finished_stays_idle(events.drop_first());
}

/// A request is sent at most once, and only in answer to the news that the
/// destination is not there yet, before anything else has happened.
pub proof fn lemma_request_follows_the_check(events: Seq<DownloadEvent>, i: int)
    requires
        0 <= i < events.len(),
        actions_of(DownloadState::Checking, events)[i] == DownloadAction::SendRequest,
    ensures
        i == 0,
        events[0] == (DownloadEvent::DestinationChecked { exists: false }),
{
    lemma_no_request_once_started(
        next(DownloadState::Checking, events[0]).0,
        events.drop_first(),
    );
}

} // verus!
