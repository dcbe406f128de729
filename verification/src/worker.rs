//! The worker: what to do next for one delivery, given what just happened.
//!
//! The worker itself reads no file and sends nothing. It is told what
//! happened (an [`Input`]) and answers with what is to be done (an
//! [`Action`]); whoever runs it does the work and reports back.

use crate::config::{ConfigModel, WorkerConfig};
use crate::event::{ErrorModel, EventModel, ParseError};
use crate::ingest::{accepted, error_views, file_outcomes, line_views, parse_file, rejected};
use crate::metrics::{payload_of, Batch};
use crate::retry::RetryPolicy;
use crate::strings::{decode_lossy, lossy_text};
use crate::text::TextParser;
use vstd::prelude::*;
use vstd::string::*;
use vstd::utf8::{decode_utf8, valid_utf8};

verus! {

/// Where the worker stands with the delivery at hand.
///
/// Lines are parsed and their points gathered within the step that takes a
/// file's lines, so the worker never rests between reading and writing.
#[derive(Clone, Copy, Debug, PartialEq, Eq)]
pub enum Stage {
    /// No delivery was taken yet.
    Idle,
    /// The pattern of the delivery is being expanded.
    Expanding,
    /// A file of the delivery is being read.
    Reading,
    /// The batch is being written to the metrics store.
    Writing,
    /// A write failed, and the worker waits before the next.
    Waiting,
    /// The delivery is being acknowledged.
    Acknowledging,
    /// The delivery is being left to the broker, unacknowledged.
    Releasing,
    /// The delivery was acknowledged.
    Done,
    /// The delivery failed and was left to the broker.
    Failed,
    /// The worker was told to stop and takes no more deliveries.
    Stopped,
}

/// What a delivery asks for: the pattern of the files to read.
#[derive(Debug, PartialEq, Eq)]
pub struct GlobRequest {
    pub pattern: String,
}

impl GlobRequest {
    /// Reads the body of a delivery as the text of a pattern. Bytes that are
    /// no UTF-8 are replaced, not refused.
    pub fn decode(body: &[u8]) -> (request: GlobRequest)
        ensures
            request.pattern@ == lossy_text(body@),
            valid_utf8(body@) ==> request.pattern@ == decode_utf8(body@),
    {
        GlobRequest { pattern: decode_lossy(body) }
    }
}

/// What happened, as the worker is told.
#[derive(Debug, PartialEq, Eq)]
pub enum Input {
    /// The queue delivered a message.
    Delivered { tag: u64, body: Vec<u8> },
    /// The pattern matched these paths, in this order.
    Expanded { paths: Vec<String> },
    /// The pattern is no pattern.
    ExpansionFailed,
    /// The file was read and has these lines.
    FileRead { lines: Vec<String> },
    /// The file could not be opened or read.
    FileUnreadable,
    /// The metrics store took the payload.
    WriteAccepted,
    /// The metrics store did not take the payload, or could not be reached.
    WriteRejected,
    /// The wait is over.
    DelayElapsed,
    /// The acknowledgment was sent.
    Acknowledged,
    /// The delivery was left to the broker.
    Released,
    /// The worker is to stop once the delivery at hand is dealt with.
    StopRequested,
}

/// The mathematical value of an [`Input`].
pub enum InputModel {
    Delivered { tag: u64, body: Seq<u8> },
    Expanded { paths: Seq<Seq<char>> },
    ExpansionFailed,
    FileRead { lines: Seq<Seq<char>> },
    FileUnreadable,
    WriteAccepted,
    WriteRejected,
    DelayElapsed,
    Acknowledged,
    Released,
    StopRequested,
}

impl View for Input {
    type V = InputModel;

    open spec fn view(&self) -> InputModel {
        match self {
            Input::Delivered { tag, body } => InputModel::Delivered { tag: *tag, body: body@ },
            Input::Expanded { paths } => InputModel::Expanded { paths: line_views(paths@) },
            Input::ExpansionFailed => InputModel::ExpansionFailed,
            Input::FileRead { lines } => InputModel::FileRead { lines: line_views(lines@) },
            Input::FileUnreadable => InputModel::FileUnreadable,
            Input::WriteAccepted => InputModel::WriteAccepted,
            Input::WriteRejected => InputModel::WriteRejected,
            Input::DelayElapsed => InputModel::DelayElapsed,
            Input::Acknowledged => InputModel::Acknowledged,
            Input::Released => InputModel::Released,
            Input::StopRequested => InputModel::StopRequested,
        }
    }
}

/// The status with which the metrics store says that it took a payload:
/// "no content".
pub const ACCEPTED_STATUS: u16 = 204;

/// What the answer of the metrics store means for the worker: the payload
/// was taken exactly when the store answered with `ACCEPTED_STATUS`. Any
/// other status, and no answer at all, is a failed write.
pub fn sink_outcome(status: Option<u16>) -> (input: Input)
    ensures
        input@ == if status == Some(ACCEPTED_STATUS) {
            InputModel::WriteAccepted
        } else {
            InputModel::WriteRejected
        },
{
    match status {
        Some(code) => {
            if code == ACCEPTED_STATUS {
                Input::WriteAccepted
            } else {
                Input::WriteRejected
            }
        },
        None => Input::WriteRejected,
    }
}

/// What is to be done next.
#[derive(Debug, PartialEq, Eq)]
pub enum Action {
    /// Take the next delivery from the queue.
    AwaitDelivery,
    /// Expand the pattern to the paths that it matches.
    ExpandGlob { pattern: String },
    /// Read the lines of the file.
    ReadFile { path: String },
    /// Post the payload to the database.
    Write { database: String, payload: String },
    /// Wait for so many milliseconds.
    Delay { millis: u64 },
    /// Acknowledge the delivery.
    Acknowledge { tag: u64 },
    /// Leave the delivery unacknowledged, so that the broker delivers it again.
    Release { tag: u64 },
    /// Go on with what is under way.
    Proceed,
    /// Close the channel and end.
    Shutdown,
    /// What was reported does not fit the worker's stage and was ignored.
    Unexpected,
}

/// The mathematical value of an [`Action`].
pub enum ActionModel {
    AwaitDelivery,
    ExpandGlob { pattern: Seq<char> },
    ReadFile { path: Seq<char> },
    Write { database: Seq<char>, payload: Seq<char> },
    Delay { millis: u64 },
    Acknowledge { tag: u64 },
    Release { tag: u64 },
    Proceed,
    Shutdown,
    Unexpected,
}

impl View for Action {
    type V = ActionModel;

    open spec fn view(&self) -> ActionModel {
        match self {
            Action::AwaitDelivery => ActionModel::AwaitDelivery,
            Action::ExpandGlob { pattern } => ActionModel::ExpandGlob { pattern: pattern@ },
            Action::ReadFile { path } => ActionModel::ReadFile { path: path@ },
            Action::Write { database, payload } => ActionModel::Write {
                database: database@,
                payload: payload@,
            },
            Action::Delay { millis } => ActionModel::Delay { millis: *millis },
            Action::Acknowledge { tag } => ActionModel::Acknowledge { tag: *tag },
            Action::Release { tag } => ActionModel::Release { tag: *tag },
            Action::Proceed => ActionModel::Proceed,
            Action::Shutdown => ActionModel::Shutdown,
            Action::Unexpected => ActionModel::Unexpected,
        }
    }
}

/// The answer of the worker: what is to be done, and the lines that were
/// skipped on the way, for the log.
#[derive(Debug, PartialEq, Eq)]
pub struct Step {
    pub action: Action,
    pub skipped: Vec<ParseError>,
}

/// The mathematical value of a [`Step`].
pub struct StepModel {
    pub action: ActionModel,
    pub skipped: Seq<ErrorModel>,
}

impl View for Step {
    type V = StepModel;

    open spec fn view(&self) -> StepModel {
        StepModel { action: self.action@, skipped: error_views(self.skipped@) }
    }
}

/// The mathematical value of a [`PipelineWorker`].
pub struct WorkerModel {
    pub config: ConfigModel,
    pub policy: RetryPolicy,
    pub stage: Stage,
    /// The tag of the delivery at hand.
    pub tag: u64,
    /// The paths that the pattern matched.
    pub paths: Seq<Seq<char>>,
    /// How many of the paths were dealt with.
    pub cursor: nat,
    /// The points gathered so far.
    pub points: Seq<EventModel>,
    /// How many writes of the batch failed.
    pub failures: nat,
    /// Whether the worker was told to stop.
    pub stopping: bool,
}

/// Whether a worker at this stage takes a delivery.
pub open spec fn takes_delivery(stage: Stage) -> bool {
    stage is Idle || stage is Done || stage is Failed
}

/// A step that skipped no line.
pub open spec fn quiet(action: ActionModel) -> StepModel {
    StepModel { action, skipped: Seq::empty() }
}

/// The step that ignores what was reported.
pub open spec fn ignored(w: WorkerModel) -> (WorkerModel, StepModel) {
    (w, quiet(ActionModel::Unexpected))
}

impl WorkerModel {
    /// A worker that has taken no delivery yet.
    pub open spec fn initial(config: ConfigModel, policy: RetryPolicy) -> WorkerModel {
        WorkerModel {
            config,
            policy,
            stage: Stage::Idle,
            tag: 0,
            paths: Seq::empty(),
            cursor: 0,
            points: Seq::empty(),
            failures: 0,
            stopping: false,
        }
    }

    /// What holds of every worker, whatever it was told: it reads only paths
    /// that were matched, writes only a batch with points in it, and tries a
    /// write only while its budget lasts.
    pub open spec fn wf(self) -> bool {
        &&& self.cursor <= self.paths.len()
        &&& self.failures <= u32::MAX
        &&& self.stage is Reading ==> self.cursor < self.paths.len()
        &&& (self.stage is Expanding || self.stage is Reading) ==> self.failures == 0
        &&& self.stage is Expanding ==> self.points.len() == 0
        &&& (self.stage is Writing || self.stage is Waiting) ==> {
            &&& self.points.len() > 0
            &&& self.cursor == self.paths.len()
            &&& (self.failures == 0 || self.failures < self.policy.max_attempts)
        }
        &&& self.stage is Waiting ==> self.failures > 0
        &&& self.stage is Acknowledging ==> self.cursor == self.paths.len()
    }

    /// Goes on once a path was dealt with: to the next file; or, when all
    /// were read, to the write of the batch; or, when the batch is empty,
    /// straight to the acknowledgment.
    pub open spec fn advance(self, skipped: Seq<ErrorModel>) -> (WorkerModel, StepModel) {
        if self.cursor < self.paths.len() {
            (
                WorkerModel { stage: Stage::Reading, ..self },
                StepModel {
                    action: ActionModel::ReadFile { path: self.paths[self.cursor as int] },
                    skipped,
                },
            )
        } else if self.points.len() == 0 {
            (
                WorkerModel { stage: Stage::Acknowledging, ..self },
                StepModel { action: ActionModel::Acknowledge { tag: self.tag }, skipped },
            )
        } else {
            (
                WorkerModel { stage: Stage::Writing, ..self },
                StepModel { action: self.write(), skipped },
            )
        }
    }

    /// The write of the batch.
    pub open spec fn write(self) -> ActionModel {
        ActionModel::Write { database: self.config.database, payload: payload_of(self.points) }
    }

    /// Ends the delivery at the given stage: the worker takes the next one,
    /// unless it was told to stop.
    pub open spec fn settle(self, reached: Stage) -> (WorkerModel, StepModel) {
        if self.stopping {
            (WorkerModel { stage: Stage::Stopped, ..self }, quiet(ActionModel::Shutdown))
        } else {
            (WorkerModel { stage: reached, ..self }, quiet(ActionModel::AwaitDelivery))
        }
    }

    /// The worker and its answer after it was told what happened.
    pub open spec fn next(self, input: InputModel) -> (WorkerModel, StepModel) {
        match input {
            InputModel::StopRequested => {
                if takes_delivery(self.stage) || self.stage is Stopped {
                    (
                        WorkerModel { stage: Stage::Stopped, stopping: true, ..self },
                        quiet(ActionModel::Shutdown),
                    )
                } else {
                    (WorkerModel { stopping: true, ..self }, quiet(ActionModel::Proceed))
                }
            },
            InputModel::Delivered { tag, body } => {
                if takes_delivery(self.stage) {
                    (
                        WorkerModel {
                            stage: Stage::Expanding,
                            tag,
                            paths: Seq::empty(),
                            cursor: 0,
                            points: Seq::empty(),
                            failures: 0,
                            stopping: false,
                            ..self
                        },
                        quiet(ActionModel::ExpandGlob { pattern: lossy_text(body) }),
                    )
                } else {
                    ignored(self)
                }
            },
            InputModel::Expanded { paths } => {
                if self.stage is Expanding {
                    (WorkerModel { paths, cursor: 0, ..self }).advance(Seq::empty())
                } else {
                    ignored(self)
                }
            },
            InputModel::ExpansionFailed => {
                if self.stage is Expanding {
                    (
                        WorkerModel { stage: Stage::Releasing, ..self },
                        quiet(ActionModel::Release { tag: self.tag }),
                    )
                } else {
                    ignored(self)
                }
            },
            InputModel::FileRead { lines } => {
                if self.stage is Reading {
                    let outcomes = file_outcomes(lines, self.config.log_format);
                    (WorkerModel {
                        points: self.points + accepted(outcomes),
                        cursor: self.cursor + 1,
                        ..self
                    }).advance(rejected(outcomes))
                } else {
                    ignored(self)
                }
            },
            InputModel::FileUnreadable => {
                if self.stage is Reading {
                    (WorkerModel { cursor: self.cursor + 1, ..self }).advance(Seq::empty())
                } else {
                    ignored(self)
                }
            },
            InputModel::WriteAccepted => {
                if self.stage is Writing {
                    (
                        WorkerModel { stage: Stage::Acknowledging, ..self },
                        quiet(ActionModel::Acknowledge { tag: self.tag }),
                    )
                } else {
                    ignored(self)
                }
            },
            InputModel::WriteRejected => {
                if self.stage is Writing {
                    let failures = self.failures + 1;
                    if self.policy.spent(failures) {
                        (
                            WorkerModel { stage: Stage::Releasing, failures, ..self },
                            quiet(ActionModel::Release { tag: self.tag }),
                        )
                    } else {
                        (
                            WorkerModel { stage: Stage::Waiting, failures, ..self },
                            quiet(
                                ActionModel::Delay {
                                    millis: self.policy.delay_after(failures) as u64,
                                },
                            ),
                        )
                    }
                } else {
                    ignored(self)
                }
            },
            InputModel::DelayElapsed => {
                if self.stage is Waiting {
                    (WorkerModel { stage: Stage::Writing, ..self }, quiet(self.write()))
                } else {
                    ignored(self)
                }
            },
            InputModel::Acknowledged => {
                if self.stage is Acknowledging {
                    self.settle(Stage::Done)
                } else {
                    ignored(self)
                }
            },
            InputModel::Released => {
                if self.stage is Releasing {
                    self.settle(Stage::Failed)
                } else {
                    ignored(self)
                }
            },
        }
    }
}

/// The worker: its settings, and where it stands with the delivery at hand.
pub struct PipelineWorker {
    config: WorkerConfig,
    policy: RetryPolicy,
    parser: TextParser,
    stage: Stage,
    tag: u64,
    paths: Vec<String>,
    cursor: usize,
    batch: Batch,
    failures: u32,
    stopping: bool,
}

impl View for PipelineWorker {
    type V = WorkerModel;

    closed spec fn view(&self) -> WorkerModel {
        WorkerModel {
            config: self.config@,
            policy: self.policy,
            stage: self.stage,
            tag: self.tag,
            paths: line_views(self.paths@),
            cursor: self.cursor as nat,
            points: self.batch@,
            failures: self.failures as nat,
            stopping: self.stopping,
        }
    }
}

/// A step that skipped no line.
fn quietly(action: Action) -> (step: Step)
    ensures
        step@ == quiet(action@),
{
    let step = Step { action, skipped: Vec::new() };
    assert(error_views(step.skipped@) =~= Seq::<ErrorModel>::empty());
    step
}

impl PipelineWorker {
    #[verifier::type_invariant]
    spec fn well_formed(self) -> bool {
        self@.wf()
    }

    /// A worker that has taken no delivery yet.
    pub fn new(config: WorkerConfig, policy: RetryPolicy, parser: TextParser) -> (worker:
        PipelineWorker)
        ensures
            worker@ == WorkerModel::initial(config@, policy),
    {
        let worker = PipelineWorker {
            config,
            policy,
            parser,
            stage: Stage::Idle,
            tag: 0,
            paths: Vec::new(),
            cursor: 0,
            batch: Batch::new(),
            failures: 0,
            stopping: false,
        };
        assert(worker@.paths =~= Seq::<Seq<char>>::empty());
        worker
    }

    /// Where the worker stands.
    pub fn stage(&self) -> (stage: Stage)
        ensures
            stage == self@.stage,
    {
        self.stage
    }

    /// The settings of the worker.
    pub fn config(&self) -> (config: &WorkerConfig)
        ensures
            config@ == self@.config,
    {
        &self.config
    }

    /// Goes on once a path was dealt with.
    fn advance(
        config: WorkerConfig,
        policy: RetryPolicy,
        parser: TextParser,
        tag: u64,
        paths: Vec<String>,
        cursor: usize,
        batch: Batch,
        stopping: bool,
        skipped: Vec<ParseError>,
    ) -> (r: (PipelineWorker, Step))
        requires
            cursor <= paths@.len(),
        ensures
            (r.0@, r.1@) == (WorkerModel {
                config: config@,
                policy,
                stage: Stage::Reading,
                tag,
                paths: line_views(paths@),
                cursor: cursor as nat,
                points: batch@,
                failures: 0,
                stopping,
            }).advance(error_views(skipped@)),
    {
        if cursor < paths.len() {
            let path = paths[cursor].clone();
            let worker = PipelineWorker {
                config,
                policy,
                parser,
                stage: Stage::Reading,
                tag,
                paths,
                cursor,
                batch,
                failures: 0,
                stopping,
            };
            (worker, Step { action: Action::ReadFile { path }, skipped })
        } else if batch.is_empty() {
            let worker = PipelineWorker {
                config,
                policy,
                parser,
                stage: Stage::Acknowledging,
                tag,
                paths,
                cursor,
                batch,
                failures: 0,
                stopping,
            };
            (worker, Step { action: Action::Acknowledge { tag }, skipped })
        } else {
            let action = Action::Write {
                database: config.database.clone(),
                payload: batch.finalize(),
            };
            let worker = PipelineWorker {
                config,
                policy,
                parser,
                stage: Stage::Writing,
                tag,
                paths,
                cursor,
                batch,
                failures: 0,
                stopping,
            };
            (worker, Step { action, skipped })
        }
    }

    /// Takes a delivery: its body is the pattern to expand.
    pub fn handle_delivery(self, tag: u64, body: Vec<u8>) -> (r: (PipelineWorker, Step))
        ensures
            (r.0@, r.1@) == self@.next(InputModel::Delivered { tag, body: body@ }),
    {
        self.step(Input::Delivered { tag, body })
    }

    /// Tells the worker what happened and gets what is to be done next.
    pub fn step(self, input: Input) -> (r: (PipelineWorker, Step))
        ensures
            (r.0@, r.1@) == self@.next(input@),
    {
        proof {
            use_type_invariant(&self);
        }
        let PipelineWorker {
            config,
            policy,
            parser,
            stage,
            tag,
            paths,
            cursor,
            batch,
            failures,
            stopping,
        } = self;
        match (stage, input) {
            (Stage::Idle, Input::StopRequested)
            | (Stage::Done, Input::StopRequested)
            | (Stage::Failed, Input::StopRequested)
            | (Stage::Stopped, Input::StopRequested) => {
                let worker = PipelineWorker {
                    config,
                    policy,
                    parser,
                    stage: Stage::Stopped,
                    tag,
                    paths,
                    cursor,
                    batch,
                    failures,
                    stopping: true,
                };
                (worker, quietly(Action::Shutdown))
            },
            (_, Input::StopRequested) => {
                let worker = PipelineWorker {
                    config,
                    policy,
                    parser,
                    stage,
                    tag,
                    paths,
                    cursor,
                    batch,
                    failures,
                    stopping: true,
                };
                (worker, quietly(Action::Proceed))
            },
            (Stage::Idle, Input::Delivered { tag: new_tag, body })
            | (Stage::Done, Input::Delivered { tag: new_tag, body })
            | (Stage::Failed, Input::Delivered { tag: new_tag, body }) => {
                let request = GlobRequest::decode(body.as_slice());
                let worker = PipelineWorker {
                    config,
                    policy,
                    parser,
                    stage: Stage::Expanding,
                    tag: new_tag,
                    paths: Vec::new(),
                    cursor: 0,
                    batch: Batch::new(),
                    failures: 0,
                    stopping: false,
                };
                assert(worker@.paths =~= Seq::<Seq<char>>::empty());
                (worker, quietly(Action::ExpandGlob { pattern: request.pattern }))
            },
            (Stage::Expanding, Input::Expanded { paths: matched }) => {
                let skipped: Vec<ParseError> = Vec::new();
                assert(error_views(skipped@) =~= Seq::<ErrorModel>::empty());
                Self::advance(config, policy, parser, tag, matched, 0, batch, stopping, skipped)
            },
            (Stage::Expanding, Input::ExpansionFailed) => {
                let worker = PipelineWorker {
                    config,
                    policy,
                    parser,
                    stage: Stage::Releasing,
                    tag,
                    paths,
                    cursor,
                    batch,
                    failures,
                    stopping,
                };
                (worker, quietly(Action::Release { tag }))
            },
            (Stage::Reading, Input::FileRead { lines }) => {
                let total = paths.len();
                assert(cursor < total);
                let report = parse_file(&parser, &lines, config.log_format);
                let mut batch = batch;
                batch.extend(report.events);
                Self::advance(
                    config,
                    policy,
                    parser,
                    tag,
                    paths,
                    cursor + 1,
                    batch,
                    stopping,
                    report.rejected,
                )
            },
            (Stage::Reading, Input::FileUnreadable) => {
                let total = paths.len();
                assert(cursor < total);
                let skipped: Vec<ParseError> = Vec::new();
                assert(error_views(skipped@) =~= Seq::<ErrorModel>::empty());
                Self::advance(
                    config,
                    policy,
                    parser,
                    tag,
                    paths,
                    cursor + 1,
                    batch,
                    stopping,
                    skipped,
                )
            },
            (Stage::Writing, Input::WriteAccepted) => {
                let worker = PipelineWorker {
                    config,
                    policy,
                    parser,
                    stage: Stage::Acknowledging,
                    tag,
                    paths,
                    cursor,
                    batch,
                    failures,
                    stopping,
                };
                (worker, quietly(Action::Acknowledge { tag }))
            },
            (Stage::Writing, Input::WriteRejected) => {
                let failed = failures + 1;
                if policy.is_spent(failed) {
                    let worker = PipelineWorker {
                        config,
                        policy,
                        parser,
                        stage: Stage::Releasing,
                        tag,
                        paths,
                        cursor,
                        batch,
                        failures: failed,
                        stopping,
                    };
                    (worker, quietly(Action::Release { tag }))
                } else {
                    let millis = policy.delay(failed);
                    let worker = PipelineWorker {
                        config,
                        policy,
                        parser,
                        stage: Stage::Waiting,
                        tag,
                        paths,
                        cursor,
                        batch,
                        failures: failed,
                        stopping,
                    };
                    (worker, quietly(Action::Delay { millis }))
                }
            },
            (Stage::Waiting, Input::DelayElapsed) => {
                let action = Action::Write {
                    database: config.database.clone(),
                    payload: batch.finalize(),
                };
                let worker = PipelineWorker {
                    config,
                    policy,
                    parser,
                    stage: Stage::Writing,
                    tag,
                    paths,
                    cursor,
                    batch,
                    failures,
                    stopping,
                };
                (worker, quietly(action))
            },
            (Stage::Acknowledging, Input::Acknowledged) => {
                Self::settle(
                    config,
                    policy,
                    parser,
                    tag,
                    paths,
                    cursor,
                    batch,
                    failures,
                    stopping,
                    Stage::Done,
                    Ghost(stage),
                )
            },
            (Stage::Releasing, Input::Released) => {
                Self::settle(
                    config,
                    policy,
                    parser,
                    tag,
                    paths,
                    cursor,
                    batch,
                    failures,
                    stopping,
                    Stage::Failed,
                    Ghost(stage),
                )
            },
            (_, _) => {
                let worker = PipelineWorker {
                    config,
                    policy,
                    parser,
                    stage,
                    tag,
                    paths,
                    cursor,
                    batch,
                    failures,
                    stopping,
                };
                (worker, quietly(Action::Unexpected))
            },
        }
    }

    /// Ends the delivery at the given stage.
    fn settle(
        config: WorkerConfig,
        policy: RetryPolicy,
        parser: TextParser,
        tag: u64,
        paths: Vec<String>,
        cursor: usize,
        batch: Batch,
        failures: u32,
        stopping: bool,
        reached: Stage,
        Ghost(from): Ghost<Stage>,
    ) -> (r: (PipelineWorker, Step))
        requires
            cursor <= paths@.len(),
            reached is Done || reached is Failed,
        ensures
            (r.0@, r.1@) == (WorkerModel {
                config: config@,
                policy,
                stage: from,
                tag,
                paths: line_views(paths@),
                cursor: cursor as nat,
                points: batch@,
                failures: failures as nat,
                stopping,
            }).settle(reached),
    {
        if stopping {
            let worker = PipelineWorker {
                config,
                policy,
                parser,
                stage: Stage::Stopped,
                tag,
                paths,
                cursor,
                batch,
                failures,
                stopping,
            };
            (worker, quietly(Action::Shutdown))
        } else {
            let worker = PipelineWorker {
                config,
                policy,
                parser,
                stage: reached,
                tag,
                paths,
                cursor,
                batch,
                failures,
                stopping,
            };
            (worker, quietly(Action::AwaitDelivery))
        }
    }
}

} // verus!
