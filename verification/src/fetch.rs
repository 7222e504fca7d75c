//! The package fetcher: a state machine that decides, step by step, how a
//! package gets into the local cache.
//!
//! The machine performs no input or output itself, and does not decompress.
//! It hands out a [`FetchAction`], the caller carries it out and reports back
//! with a [`FetchEvent`], until the machine hands out [`FetchAction::Finish`].

use vstd::prelude::*;
use vstd::string::*;
use crate::package::{package_dir_text, package_url_text, PackageCoordinate};
use crate::retry::retry_result;
use crate::text::{decimal, decimal_digits};

verus! {

/// The number of GET requests made for one package before giving up.
pub const MAX_ATTEMPTS: u8 = 2;

/// Why a package could not be made available.
#[derive(Debug, PartialEq, Eq)]
pub enum PackageError {
    /// The archive could not be downloaded.
    NetworkFailed(String),
    /// The archive could not be decompressed or extracted.
    MalformedArchive(String),
}

/// The mathematical value of a [`PackageError`].
pub enum PackageErrorView {
    NetworkFailed(Seq<char>),
    MalformedArchive(Seq<char>),
}

impl View for PackageError {
    type V = PackageErrorView;

    open spec fn view(&self) -> PackageErrorView {
        match self {
            PackageError::NetworkFailed(reason) => PackageErrorView::NetworkFailed(reason@),
            PackageError::MalformedArchive(reason) => PackageErrorView::MalformedArchive(reason@),
        }
    }
}

impl Clone for PackageError {
    fn clone(&self) -> (copy: Self)
        ensures
            copy@ == self@,
    {
        match self {
            PackageError::NetworkFailed(reason) => PackageError::NetworkFailed(reason.clone()),
            PackageError::MalformedArchive(reason) => PackageError::MalformedArchive(
                reason.clone(),
            ),
        }
    }
}

/// Whether an HTTP status code is in the 2xx class.
pub open spec fn is_success_status(status: u16) -> bool {
    200 <= status < 300
}

/// Tells whether `status` is a successful (2xx) HTTP status code.
pub fn http_successful(status: u16) -> (ok: bool)
    ensures
        ok == is_success_status(status),
{
    status / 100 == 2
}

/// The text that reports a response whose status is not successful.
pub open spec fn status_failure_text(status: u16) -> Seq<char> {
    "response returned unsuccessful status code "@ + decimal_digits(status as nat)
}

/// Writes the failure text for a response with the unsuccessful `status`.
pub fn status_failure(status: u16) -> (reason: String)
    ensures
        reason@ == status_failure_text(status),
{
    let mut reason = String::from_str("response returned unsuccessful status code ");
    reason.append(decimal(status as u128).as_str());
    reason
}

/// Where the machine stands: what it is waiting for.
#[derive(Debug, PartialEq, Eq)]
pub enum Stage {
    /// Waiting to learn whether the package directory exists.
    Probing,
    /// Waiting for the answer to the GET request with this number (from 1).
    Requesting { attempt: u8 },
    /// Waiting for the body of the response.
    Receiving,
    /// Waiting for the decompressed archive.
    Decoding,
    /// Waiting for the extraction into the package directory.
    Extracting,
    /// Waiting for the removal of the package directory, after the archive
    /// turned out to be malformed for this reason.
    Cleaning { reason: String },
    /// Finished: the result was handed out.
    Done,
}

/// The mathematical value of a [`Stage`].
pub enum StageView {
    Probing,
    Requesting { attempt: u8 },
    Receiving,
    Decoding,
    Extracting,
    Cleaning { reason: Seq<char> },
    Done,
}

impl View for Stage {
    type V = StageView;

    open spec fn view(&self) -> StageView {
        match self {
            Stage::Probing => StageView::Probing,
            Stage::Requesting { attempt } => StageView::Requesting { attempt: *attempt },
            Stage::Receiving => StageView::Receiving,
            Stage::Decoding => StageView::Decoding,
            Stage::Extracting => StageView::Extracting,
            Stage::Cleaning { reason } => StageView::Cleaning { reason: reason@ },
            Stage::Done => StageView::Done,
        }
    }
}

/// What the caller reports back to the machine.
#[derive(Debug, PartialEq, Eq)]
pub enum FetchEvent {
    /// The package directory was looked for.
    Probed { exists: bool },
    /// The GET request was answered with this status.
    Responded { status: u16 },
    /// The GET request failed in transport.
    RequestFailed { reason: String },
    /// The body of the response was read in full.
    BodyRead { body: Vec<u8> },
    /// Reading the body failed.
    BodyFailed { reason: String },
    /// The body was decompressed to this archive.
    Decoded { archive: Vec<u8> },
    /// The body could not be decompressed.
    DecodeFailed { reason: String },
    /// The archive was extracted into the package directory.
    Unpacked,
    /// Extracting the archive failed.
    UnpackFailed { reason: String },
    /// The package directory was removed, or the attempt to remove it failed.
    Removed,
}

/// The mathematical value of a [`FetchEvent`].
pub enum FetchEventView {
    Probed { exists: bool },
    Responded { status: u16 },
    RequestFailed { reason: Seq<char> },
    BodyRead { body: Seq<u8> },
    BodyFailed { reason: Seq<char> },
    Decoded { archive: Seq<u8> },
    DecodeFailed { reason: Seq<char> },
    Unpacked,
    UnpackFailed { reason: Seq<char> },
    Removed,
}

impl View for FetchEvent {
    type V = FetchEventView;

    open spec fn view(&self) -> FetchEventView {
        match self {
            FetchEvent::Probed { exists } => FetchEventView::Probed { exists: *exists },
            FetchEvent::Responded { status } => FetchEventView::Responded { status: *status },
            FetchEvent::RequestFailed { reason } => FetchEventView::RequestFailed {
                reason: reason@,
            },
            FetchEvent::BodyRead { body } => FetchEventView::BodyRead { body: body@ },
            FetchEvent::BodyFailed { reason } => FetchEventView::BodyFailed { reason: reason@ },
            FetchEvent::Decoded { archive } => FetchEventView::Decoded { archive: archive@ },
            FetchEvent::DecodeFailed { reason } => FetchEventView::DecodeFailed {
                reason: reason@,
            },
            FetchEvent::Unpacked => FetchEventView::Unpacked,
            FetchEvent::UnpackFailed { reason } => FetchEventView::UnpackFailed {
                reason: reason@,
            },
            FetchEvent::Removed => FetchEventView::Removed,
        }
    }
}

/// What the machine asks the caller to do next.
#[derive(Debug, PartialEq, Eq)]
pub enum FetchAction {
    /// Find out whether this directory exists.
    Probe { dir: String },
    /// Send one GET request to this address.
    Get { url: String },
    /// Read the whole body of the response just received.
    ReadBody,
    /// Decompress this gzip stream.
    Decode { body: Vec<u8> },
    /// Extract this tar stream into this directory.
    Unpack { archive: Vec<u8>, dir: String },
    /// Remove this directory and what is in it; a failure to do so is not an
    /// error.
    Remove { dir: String },
    /// Nothing: the event did not answer what the machine is waiting for.
    Nothing,
    /// The fetch is over, with the package directory or the reason for failure.
    Finish(Result<String, PackageError>),
}

/// The mathematical value of a [`FetchAction`].
pub enum FetchActionView {
    Probe { dir: Seq<char> },
    Get { url: Seq<char> },
    ReadBody,
    Decode { body: Seq<u8> },
    Unpack { archive: Seq<u8>, dir: Seq<char> },
    Remove { dir: Seq<char> },
    Nothing,
    Finish(Result<Seq<char>, PackageErrorView>),
}

impl View for FetchAction {
    type V = FetchActionView;

    open spec fn view(&self) -> FetchActionView {
        match self {
            FetchAction::Probe { dir } => FetchActionView::Probe { dir: dir@ },
            FetchAction::Get { url } => FetchActionView::Get { url: url@ },
            FetchAction::ReadBody => FetchActionView::ReadBody,
            FetchAction::Decode { body } => FetchActionView::Decode { body: body@ },
            FetchAction::Unpack { archive, dir } => FetchActionView::Unpack {
                archive: archive@,
                dir: dir@,
            },
            FetchAction::Remove { dir } => FetchActionView::Remove { dir: dir@ },
            FetchAction::Nothing => FetchActionView::Nothing,
            FetchAction::Finish(Ok(dir)) => FetchActionView::Finish(Ok(dir@)),
            FetchAction::Finish(Err(e)) => FetchActionView::Finish(Err(e@)),
        }
    }
}

/// One fetch of one package.
#[derive(Debug, PartialEq, Eq)]
pub struct Fetch {
    /// The directory in which the package is kept.
    pub dir: String,
    /// The address of the package's archive.
    pub url: String,
    /// What the machine is waiting for.
    pub stage: Stage,
}

/// The mathematical value of a [`Fetch`].
pub struct FetchView {
    pub dir: Seq<char>,
    pub url: Seq<char>,
    pub stage: StageView,
}

impl View for Fetch {
    type V = FetchView;

    open spec fn view(&self) -> FetchView {
        FetchView { dir: self.dir@, url: self.url@, stage: self.stage@ }
    }
}

/// The machine with another stage.
pub open spec fn at_stage(s: FetchView, stage: StageView) -> FetchView {
    FetchView { dir: s.dir, url: s.url, stage }
}

/// What follows a GET attempt that failed for `reason`: another attempt while
/// fewer than [`MAX_ATTEMPTS`] were made, the failure after that.
pub open spec fn after_failed_attempt(s: FetchView, attempt: u8, reason: Seq<char>) -> (
    FetchView,
    FetchActionView,
) {
    if attempt < MAX_ATTEMPTS {
        (
            at_stage(s, StageView::Requesting { attempt: (attempt + 1) as u8 }),
            FetchActionView::Get { url: s.url },
        )
    } else {
        (
            at_stage(s, StageView::Done),
            FetchActionView::Finish(Err(PackageErrorView::NetworkFailed(reason))),
        )
    }
}

/// What follows the discovery that the archive is malformed: the package
/// directory is removed before the failure is reported.
pub open spec fn after_malformed(s: FetchView, reason: Seq<char>) -> (FetchView, FetchActionView) {
    (at_stage(s, StageView::Cleaning { reason }), FetchActionView::Remove { dir: s.dir })
}

/// The transition function: the machine's next state and the action that it
/// hands out, for every state and event. An event that does not answer what
/// the machine is waiting for changes nothing.
pub open spec fn fetch_next(s: FetchView, e: FetchEventView) -> (FetchView, FetchActionView) {
    match (s.stage, e) {
        (StageView::Probing, FetchEventView::Probed { exists }) => if exists {
            (at_stage(s, StageView::Done), FetchActionView::Finish(Ok(s.dir)))
        } else {
            (
                at_stage(s, StageView::Requesting { attempt: 1 }),
                FetchActionView::Get { url: s.url },
            )
        },
        (StageView::Requesting { attempt }, FetchEventView::Responded { status }) => if is_success_status(
            status,
        ) {
            (at_stage(s, StageView::Receiving), FetchActionView::ReadBody)
        } else {
            after_failed_attempt(s, attempt, status_failure_text(status))
        },
        (
            StageView::Requesting { attempt },
            FetchEventView::RequestFailed { reason },
        ) => after_failed_attempt(s, attempt, reason),
        (StageView::Receiving, FetchEventView::BodyRead { body }) => (
            at_stage(s, StageView::Decoding),
            FetchActionView::Decode { body },
        ),
        (StageView::Receiving, FetchEventView::BodyFailed { reason }) => (
            at_stage(s, StageView::Done),
            FetchActionView::Finish(Err(PackageErrorView::NetworkFailed(reason))),
        ),
        (StageView::Decoding, FetchEventView::Decoded { archive }) => (
            at_stage(s, StageView::Extracting),
            FetchActionView::Unpack { archive, dir: s.dir },
        ),
        (StageView::Decoding, FetchEventView::DecodeFailed { reason }) => after_malformed(
            s,
            reason,
        ),
        (StageView::Extracting, FetchEventView::Unpacked) => (
            at_stage(s, StageView::Done),
            FetchActionView::Finish(Ok(s.dir)),
        ),
        (StageView::Extracting, FetchEventView::UnpackFailed { reason }) => after_malformed(
            s,
            reason,
        ),
        (StageView::Cleaning { reason }, FetchEventView::Removed) => (
            at_stage(s, StageView::Done),
            FetchActionView::Finish(Err(PackageErrorView::MalformedArchive(reason))),
        ),
        _ => (s, FetchActionView::Nothing),
    }
}

impl Fetch {
    /// Starts the fetch of `coordinate` into the cache below `cache_root`. The
    /// first thing to find out is whether the package directory is there.
    pub fn begin(coordinate: &PackageCoordinate, cache_root: &str) -> (started: (Fetch, FetchAction))
        ensures
            started.0@ == (FetchView {
                dir: package_dir_text(cache_root@, coordinate@),
                url: package_url_text(coordinate@),
                stage: StageView::Probing,
            }),
            started.1@ == (FetchActionView::Probe { dir: started.0@.dir }),
    {
        let dir = coordinate.directory(cache_root);
        let probe = FetchAction::Probe { dir: dir.clone() };
        (Fetch { dir, url: coordinate.url(), stage: Stage::Probing }, probe)
    }

    fn fail_attempt(&mut self, attempt: u8, reason: String) -> (action: FetchAction)
        ensures
            (final(self)@, action@) == after_failed_attempt(old(self)@, attempt, reason@),
    {
        if attempt < MAX_ATTEMPTS {
            self.stage = Stage::Requesting { attempt: attempt + 1 };
            FetchAction::Get { url: self.url.clone() }
        } else {
            self.stage = Stage::Done;
            FetchAction::Finish(Err(PackageError::NetworkFailed(reason)))
        }
    }

    fn clean_up(&mut self, reason: String) -> (action: FetchAction)
        ensures
            (final(self)@, action@) == after_malformed(old(self)@, reason@),
    {
        self.stage = Stage::Cleaning { reason };
        FetchAction::Remove { dir: self.dir.clone() }
    }

    /// Takes one step: moves to the state that follows `event`, and returns
    /// what is to be done next.
    pub fn step(&mut self, event: FetchEvent) -> (action: FetchAction)
        ensures
            (final(self)@, action@) == fetch_next(old(self)@, event@),
    {
        match event {
            FetchEvent::Probed { exists } => {
                if let Stage::Probing = self.stage {
                    if exists {
                        self.stage = Stage::Done;
                        FetchAction::Finish(Ok(self.dir.clone()))
                    } else {
                        self.stage = Stage::Requesting { attempt: 1 };
                        FetchAction::Get { url: self.url.clone() }
                    }
                } else {
                    FetchAction::Nothing
                }
            },
            FetchEvent::Responded { status } => {
                if let Stage::Requesting { attempt } = self.stage {
                    if http_successful(status) {
                        self.stage = Stage::Receiving;
                        FetchAction::ReadBody
                    } else {
                        self.fail_attempt(attempt, status_failure(status))
                    }
                } else {
                    FetchAction::Nothing
                }
            },
            FetchEvent::RequestFailed { reason } => {
                if let Stage::Requesting { attempt } = self.stage {
                    self.fail_attempt(attempt, reason)
                } else {
                    FetchAction::Nothing
                }
            },
            FetchEvent::BodyRead { body } => {
                if let Stage::Receiving = self.stage {
                    self.stage = Stage::Decoding;
                    FetchAction::Decode { body }
                } else {
                    FetchAction::Nothing
                }
            },
            FetchEvent::BodyFailed { reason } => {
                if let Stage::Receiving = self.stage {
                    self.stage = Stage::Done;
                    FetchAction::Finish(Err(PackageError::NetworkFailed(reason)))
                } else {
                    FetchAction::Nothing
                }
            },
            FetchEvent::Decoded { archive } => {
                if let Stage::Decoding = self.stage {
                    self.stage = Stage::Extracting;
                    FetchAction::Unpack { archive, dir: self.dir.clone() }
                } else {
                    FetchAction::Nothing
                }
            },
            FetchEvent::DecodeFailed { reason } => {
                if let Stage::Decoding = self.stage {
                    self.clean_up(reason)
                } else {
                    FetchAction::Nothing
                }
            },
            FetchEvent::Unpacked => {
                if let Stage::Extracting = self.stage {
                    self.stage = Stage::Done;
                    FetchAction::Finish(Ok(self.dir.clone()))
                } else {
                    FetchAction::Nothing
                }
            },
            FetchEvent::UnpackFailed { reason } => {
                if let Stage::Extracting = self.stage {
                    self.clean_up(reason)
                } else {
                    FetchAction::Nothing
                }
            },
            FetchEvent::Removed => {
                if let Stage::Cleaning { reason } = &self.stage {
                    let reason = reason.clone();
                    self.stage = Stage::Done;
                    FetchAction::Finish(Err(PackageError::MalformedArchive(reason)))
                } else {
                    FetchAction::Nothing
                }
            },
        }
    }
}

/// What a GET attempt came to, as its answer reports it: success, or the
/// reason for its failure. `None` for an event that answers no attempt.
pub open spec fn attempt_outcome(e: FetchEventView) -> Option<Result<(), Seq<char>>> {
    match e {
        FetchEventView::Responded { status } => if is_success_status(status) {
            Some(Ok(()))
        } else {
            Some(Err(status_failure_text(status)))
        },
        FetchEventView::RequestFailed { reason } => Some(Err(reason)),
        _ => None,
    }
}

/// The number of GET requests that the machine asks for along a sequence of
/// events.
pub open spec fn requests_along(s: FetchView, events: Seq<FetchEventView>) -> nat
    decreases events.len(),
{
    if events.len() == 0 {
        0
    } else {
        let (after, action) = fetch_next(s, events[0]);
        let asked: nat = if action is Get {
            1
        } else {
            0
        };
        asked + requests_along(after, events.drop_first())
    }
}

/// The number of GET requests that a machine at this stage may still ask for.
pub open spec fn requests_left(stage: StageView) -> nat {
    match stage {
        StageView::Probing => MAX_ATTEMPTS as nat,
        StageView::Requesting { attempt } => if attempt < MAX_ATTEMPTS {
            (MAX_ATTEMPTS - attempt) as nat
        } else {
            0
        },
        _ => 0,
    }
}

/// Whatever is reported to it, a machine never asks for more GET requests
/// than its stage leaves it.
pub proof fn law_requests_bounded(s: FetchView, events: Seq<FetchEventView>)
    ensures
        requests_along(s, events) <= requests_left(s.stage),
    decreases events.len(),
{
    if events.len() > 0 {
        law_requests_bounded(fetch_next(s, events[0]).0, events.drop_first());
    }
}

/// From its start, a fetch makes at most [`MAX_ATTEMPTS`] GET requests:
/// the first attempt and one retry.
pub proof fn law_at_most_two_attempts(s: FetchView, events: Seq<FetchEventView>)
    requires
        s.stage == StageView::Probing,
    ensures
        requests_along(s, events) <= MAX_ATTEMPTS,
{
    law_requests_bounded(s, events);
}

/// The request phase follows the retry rule. After the first GET request was
/// sent, let `first` and `second` answer an attempt each. If the first attempt
/// succeeded, the machine goes on to read the body at once. If it failed, the
/// machine asks for the same address once more, and then the second answer
/// decides: on success the body is read, on failure the fetch ends with
/// `NetworkFailed` and the second failure's reason.
pub proof fn law_request_phase_retries_once(
    s: FetchView,
    first: FetchEventView,
    second: FetchEventView,
)
    requires
        s.stage == (StageView::Requesting { attempt: 1 }),
        attempt_outcome(first) is Some,
        attempt_outcome(second) is Some,
    ensures
        attempt_outcome(first)->0 is Ok ==> fetch_next(s, first).1 == FetchActionView::ReadBody,
        attempt_outcome(first)->0 is Err ==> {
            let (retrying, again) = fetch_next(s, first);
            let (after, action) = fetch_next(retrying, second);
            &&& again == FetchActionView::Get { url: s.url }
            &&& match retry_result(attempt_outcome(first)->0, attempt_outcome(second)->0) {
                Ok(_) => action == FetchActionView::ReadBody,
                Err(reason) => {
                    &&& action == FetchActionView::Finish(
                        Err(PackageErrorView::NetworkFailed(reason)),
                    )
                    &&& after.stage == StageView::Done
                },
            }
        },
{
}

/// A finished machine asks for nothing more, whatever is reported to it.
pub proof fn law_done_is_final(s: FetchView, e: FetchEventView)
    requires
        s.stage == StageView::Done,
    ensures
        fetch_next(s, e) == (s, FetchActionView::Nothing),
{
}

/// A malformed archive is reported only after the removal of the package
/// directory was asked for. When decompression or extraction fails, the
/// machine asks for the removal of its directory; the failure is handed out
/// by the step that follows the removal, and by no other step.
pub proof fn law_cleanup_before_failure(s: FetchView, e: FetchEventView, reason: Seq<char>)
    ensures
        s.stage == StageView::Extracting ==> fetch_next(
            s,
            FetchEventView::UnpackFailed { reason },
        ) == (
            at_stage(s, StageView::Cleaning { reason }),
            FetchActionView::Remove { dir: s.dir },
        ),
        s.stage == StageView::Decoding ==> fetch_next(
            s,
            FetchEventView::DecodeFailed { reason },
        ) == (
            at_stage(s, StageView::Cleaning { reason }),
            FetchActionView::Remove { dir: s.dir },
        ),
        s.stage == (StageView::Cleaning { reason }) ==> fetch_next(s, FetchEventView::Removed).1
            == FetchActionView::Finish(Err(PackageErrorView::MalformedArchive(reason))),
        fetch_next(s, e).1 matches FetchActionView::Finish(
            Err(PackageErrorView::MalformedArchive(r)),
        ) ==> s.stage == (StageView::Cleaning { reason: r }) && e == FetchEventView::Removed,
{
}

/// The local cache is trusted, and only an absent directory is downloaded: a
/// machine at its start finishes at once with its directory if that exists,
/// and asks for the archive if it does not.
pub proof fn law_probe_decides(s: FetchView)
    requires
        s.stage == StageView::Probing,
    ensures
        fetch_next(s, FetchEventView::Probed { exists: true }).1 == FetchActionView::Finish(
            Ok(s.dir),
        ),
        fetch_next(s, FetchEventView::Probed { exists: false }).1 == (FetchActionView::Get {
            url: s.url,
        }),
{
}

} // verus!
