//! The conversion transaction: one logical unit per input file.
//!
//! A transaction runs idempotency check, supervised invocation,
//! measurement and the crash-safe replace as an event-driven state
//! machine. Every decision is the pure `transition` function here; the
//! unverified shell performs each returned action — an existence check,
//! a probe, a tool run under the supervisor, a rename — and feeds the
//! result back in as the next event. The replace never leaves zero valid
//! copies: the input is first relocated to a fresh temp name, never
//! destroyed, and nothing at all is renamed when the destination is
//! already taken.

use vstd::prelude::*;
use vstd::string::*;

use crate::comment;
use crate::comment::Comment;
use crate::delta::Delta;
use crate::error::Error;
use crate::image;
use crate::options::OutputOptions;
use crate::pathname;
use crate::shrink::ShrinkTool;
use crate::shrink::ToolKind;
use crate::shrink::tool_kind_for;
use crate::supervisor::ExitInfo;
use crate::supervisor::SupervisorOutcome;
use crate::text;
use crate::video;

verus! {

/// Where a transaction stands between events.
#[derive(Debug)]
pub enum Phase {
    /// Created; nothing observed yet.
    Start,
    /// Waiting to hear whether the input exists and what it is.
    CheckingInput,
    /// Waiting for the identification answer.
    Identifying,
    /// Waiting for the binary of the chosen family.
    Resolving { kind: ToolKind },
    /// Waiting for the idempotency probe of the input.
    Probing { tool: ShrinkTool },
    /// Waiting for the resolved output path.
    AllocatingOutput { tool: ShrinkTool },
    /// Waiting for the pass-log path (video only).
    AllocatingLog { tool: ShrinkTool, output: String },
    /// The single conversion pass is running (image).
    Running { tool: ShrinkTool, output: String },
    /// The first encode pass is running (video).
    RunningPass1 { tool: ShrinkTool, output: String, log: String },
    /// The pass log is being removed after a failed first pass.
    CleaningLogPass1 { err: Error },
    /// The second encode pass is running (video).
    RunningPass2 { tool: ShrinkTool, output: String, log: String },
    /// The pass log is being removed after the second pass, whatever the
    /// pass resolved to.
    CleaningLogPass2 { outcome: Result<SupervisorOutcome, Error>, output: String },
    /// A partial output is being removed after a failed invocation.
    CleaningOutput { err: Error },
    /// Waiting for the measured sizes (and the copied timestamp).
    Measuring { output: String },
    /// A grown output is being discarded under the no-grow policy.
    DiscardingGrowth { delta: Delta },
    /// Waiting to hear whether the replace destination is taken.
    CheckingDestination { delta: Delta, output: String },
    /// Waiting for a fresh temp name beside the input.
    AllocatingReplaceTemp { delta: Delta, output: String, destination: String },
    /// The input is being relocated to the temp name.
    RenamingInput { delta: Delta, output: String, destination: String, temp: String },
    /// The output is being renamed onto the destination.
    RenamingOutput { delta: Delta, temp: String },
    /// The relocated original is being removed; both copies are valid.
    RemovingTemp { delta: Delta },
    /// Resolved; the result went out with the final action.
    Done,
}

/// What the shell reports back to the transaction.
#[derive(Debug)]
pub enum TransactionEvent {
    /// Start the job.
    Begin,
    /// Whether the input path exists, and whether it is a symlink.
    InputStatus { exists: bool, symlink: bool },
    /// The identification answer: a MIME type, or nothing.
    Identified(Result<Option<String>, Error>),
    /// The resolved tool for the chosen family.
    ToolResolved(Result<ShrinkTool, Error>),
    /// What the idempotency probe found: an embedded marker, or none.
    Probed(Result<Option<Comment>, Error>),
    /// The resolved output path, its directory ensured.
    OutputReady(Result<String, Error>),
    /// The resolved pass-log path, its directory ensured.
    LogReady(Result<String, Error>),
    /// What the supervised invocation resolved to.
    ToolFinished(Result<SupervisorOutcome, Error>),
    /// The measured sizes, timestamp copied.
    Measured(Result<Delta, Error>),
    /// The replace destination, and whether it already exists.
    DestinationStatus { destination: String, exists: bool },
    /// A fresh temp name beside the input.
    TempReady(String),
    /// Whether a requested rename went through.
    Renamed(Result<(), Error>),
    /// Whether a requested (fatal) deletion went through.
    Deleted(Result<(), Error>),
    /// A best-effort cleanup finished, one way or the other.
    CleanupDone,
}

/// What the shell must do next on behalf of the transaction.
#[derive(Debug)]
pub enum TransactionAction {
    /// Look at the input path: does it exist, is it a symlink.
    CheckInput { path: String },
    /// Identify the input's type.
    Identify { path: String },
    /// Resolve the binary of this family (environment override first).
    ResolveTool { kind: ToolKind },
    /// Run the idempotency probe over the input.
    RunProbe { tool: ShrinkTool, input: String },
    /// Resolve the output path and ensure its directory exists.
    AllocateOutput { tool: ShrinkTool, input: String },
    /// Resolve the pass-log path and ensure its directory exists.
    AllocateLog { input: String },
    /// Run the single conversion pass under the supervisor.
    RunImageTool { tool: ShrinkTool, input: String, marker: String, output: String },
    /// Run the first encode pass under the supervisor.
    RunVideoPass1 { tool: ShrinkTool, input: String, log: String },
    /// Run the second encode pass under the supervisor.
    RunVideoPass2 { tool: ShrinkTool, input: String, marker: String, log: String, output: String },
    /// Remove the files written for this pass-log prefix, best effort.
    DeletePassLog { log: String },
    /// Remove this path if it exists, best effort (log on failure).
    DeleteIfExists { path: String },
    /// Remove this path; a failure is fatal to the job.
    DeleteOutput { path: String },
    /// Measure input and output sizes and copy the input's mtime.
    Measure { input: String, output: String },
    /// Compute the replace destination and check whether it is taken.
    CheckDestination { input: String, output: String },
    /// Allocate a fresh temp name beside the input.
    AllocateReplaceTemp { input: String },
    /// Rename `from` onto `to`.
    Rename { from: String, to: String },
    /// The job resolved; report this result.
    Finish(Result<Delta, Error>),
    /// The event does not belong to the current phase; nothing happens.
    Ignore,
}

/// One conversion job: the input, the marker it will embed, the output
/// placement policy, and the phase the job stands in.
#[derive(Debug)]
pub struct Transaction {
    pub input: String,
    pub marker: String,
    pub output_options: OutputOptions,
    pub no_grow: bool,
    pub phase: Phase,
}

/// The whole transaction machine: what each event does to the phase and
/// what the shell is told to do next.
pub open spec fn transition(t: Transaction, e: TransactionEvent) -> (Transaction, TransactionAction) {
    match (t.phase, e) {
        (Phase::Start, TransactionEvent::Begin) => (
            Transaction { phase: Phase::CheckingInput, ..t },
            TransactionAction::CheckInput { path: t.input },
        ),
        (Phase::CheckingInput, TransactionEvent::InputStatus { exists, symlink }) => {
            if !exists {
                (
                    Transaction { phase: Phase::Done, ..t },
                    TransactionAction::Finish(Err(Error::InputNotFound(t.input))),
                )
            } else if symlink {
                (
                    Transaction { phase: Phase::Done, ..t },
                    TransactionAction::Finish(Err(Error::InputIsSymlink(t.input))),
                )
            } else {
                (
                    Transaction { phase: Phase::Identifying, ..t },
                    TransactionAction::Identify { path: t.input },
                )
            }
        },
        (Phase::Identifying, TransactionEvent::Identified(r)) => match r {
            Err(e) => (Transaction { phase: Phase::Done, ..t }, TransactionAction::Finish(Err(e))),
            Ok(None) => (
                Transaction { phase: Phase::Done, ..t },
                TransactionAction::Finish(Err(Error::InputFormatUnknown(t.input))),
            ),
            Ok(Some(mime)) => match tool_kind_for(mime@) {
                None => (
                    Transaction { phase: Phase::Done, ..t },
                    TransactionAction::Finish(Err(Error::InputFormatUnknown(t.input))),
                ),
                Some(kind) => (
                    Transaction { phase: Phase::Resolving { kind }, ..t },
                    TransactionAction::ResolveTool { kind },
                ),
            },
        },
        (Phase::Resolving { kind: _ }, TransactionEvent::ToolResolved(r)) => match r {
            Err(e) => (Transaction { phase: Phase::Done, ..t }, TransactionAction::Finish(Err(e))),
            Ok(tool) => (
                Transaction { phase: Phase::Probing { tool }, ..t },
                TransactionAction::RunProbe { tool, input: t.input },
            ),
        },
        (Phase::Probing { tool }, TransactionEvent::Probed(r)) => match r {
            Err(e) => (Transaction { phase: Phase::Done, ..t }, TransactionAction::Finish(Err(e))),
            Ok(Some(c)) => (
                Transaction { phase: Phase::Done, ..t },
                TransactionAction::Finish(Err(Error::AlreadyConverted(c))),
            ),
            Ok(None) => (
                Transaction { phase: Phase::AllocatingOutput { tool }, ..t },
                TransactionAction::AllocateOutput { tool, input: t.input },
            ),
        },
        (Phase::AllocatingOutput { tool }, TransactionEvent::OutputReady(r)) => match r {
            Err(e) => (Transaction { phase: Phase::Done, ..t }, TransactionAction::Finish(Err(e))),
            Ok(output) => match tool.spec_kind() {
                ToolKind::Image => (
                    Transaction { phase: Phase::Running { tool, output }, ..t },
                    TransactionAction::RunImageTool {
                        tool,
                        input: t.input,
                        marker: t.marker,
                        output,
                    },
                ),
                ToolKind::Video => (
                    Transaction { phase: Phase::AllocatingLog { tool, output }, ..t },
                    TransactionAction::AllocateLog { input: t.input },
                ),
            },
        },
        (Phase::AllocatingLog { tool, output }, TransactionEvent::LogReady(r)) => match r {
            Err(e) => (Transaction { phase: Phase::Done, ..t }, TransactionAction::Finish(Err(e))),
            Ok(log) => (
                Transaction { phase: Phase::RunningPass1 { tool, output, log }, ..t },
                TransactionAction::RunVideoPass1 { tool, input: t.input, log },
            ),
        },
        (Phase::Running { tool, output }, TransactionEvent::ToolFinished(r)) => match r {
            Err(e) => (
                Transaction { phase: Phase::CleaningOutput { err: e }, ..t },
                TransactionAction::DeleteIfExists { path: output },
            ),
            Ok(outcome) => {
                if outcome.cancelled {
                    (
                        Transaction { phase: Phase::CleaningOutput { err: Error::Cancelled }, ..t },
                        TransactionAction::DeleteIfExists { path: output },
                    )
                } else if !outcome.exit.success {
                    (
                        Transaction {
                            phase: Phase::CleaningOutput {
                                err: Error::Invocation(tool.spec_kind(), outcome.exit),
                            },
                            ..t
                        },
                        TransactionAction::DeleteIfExists { path: output },
                    )
                } else {
                    (
                        Transaction { phase: Phase::Measuring { output }, ..t },
                        TransactionAction::Measure { input: t.input, output },
                    )
                }
            },
        },
        (Phase::RunningPass1 { tool, output, log }, TransactionEvent::ToolFinished(r)) => match r {
            Err(e) => (
                Transaction { phase: Phase::CleaningLogPass1 { err: e }, ..t },
                TransactionAction::DeletePassLog { log },
            ),
            Ok(outcome) => {
                if outcome.cancelled {
                    (
                        Transaction { phase: Phase::CleaningLogPass1 { err: Error::Cancelled }, ..t },
                        TransactionAction::DeletePassLog { log },
                    )
                } else if !outcome.exit.success {
                    (
                        Transaction {
                            phase: Phase::CleaningLogPass1 {
                                err: Error::Invocation(tool.spec_kind(), outcome.exit),
                            },
                            ..t
                        },
                        TransactionAction::DeletePassLog { log },
                    )
                } else {
                    (
                        Transaction { phase: Phase::RunningPass2 { tool, output, log }, ..t },
                        TransactionAction::RunVideoPass2 {
                            tool,
                            input: t.input,
                            marker: t.marker,
                            log,
                            output,
                        },
                    )
                }
            },
        },
        (Phase::CleaningLogPass1 { err }, TransactionEvent::CleanupDone) => (
            Transaction { phase: Phase::Done, ..t },
            TransactionAction::Finish(Err(err)),
        ),
        (Phase::RunningPass2 { tool: _, output, log }, TransactionEvent::ToolFinished(r)) => (
            Transaction { phase: Phase::CleaningLogPass2 { outcome: r, output }, ..t },
            TransactionAction::DeletePassLog { log },
        ),
        (Phase::CleaningLogPass2 { outcome, output }, TransactionEvent::CleanupDone) => match outcome {
            Err(e) => (
                Transaction { phase: Phase::CleaningOutput { err: e }, ..t },
                TransactionAction::DeleteIfExists { path: output },
            ),
            Ok(oc) => {
                if oc.cancelled {
                    (
                        Transaction { phase: Phase::CleaningOutput { err: Error::Cancelled }, ..t },
                        TransactionAction::DeleteIfExists { path: output },
                    )
                } else if !oc.exit.success {
                    (
                        Transaction {
                            phase: Phase::CleaningOutput {
                                err: Error::Invocation(ToolKind::Video, oc.exit),
                            },
                            ..t
                        },
                        TransactionAction::DeleteIfExists { path: output },
                    )
                } else {
                    (
                        Transaction { phase: Phase::Measuring { output }, ..t },
                        TransactionAction::Measure { input: t.input, output },
                    )
                }
            },
        },
        (Phase::CleaningOutput { err }, TransactionEvent::CleanupDone) => (
            Transaction { phase: Phase::Done, ..t },
            TransactionAction::Finish(Err(err)),
        ),
        (Phase::Measuring { output }, TransactionEvent::Measured(r)) => match r {
            Err(e) => (Transaction { phase: Phase::Done, ..t }, TransactionAction::Finish(Err(e))),
            Ok(delta) => {
                if t.no_grow && delta.original < delta.new {
                    (
                        Transaction { phase: Phase::DiscardingGrowth { delta }, ..t },
                        TransactionAction::DeleteOutput { path: output },
                    )
                } else if t.output_options.spec_should_replace() {
                    (
                        Transaction { phase: Phase::CheckingDestination { delta, output }, ..t },
                        TransactionAction::CheckDestination { input: t.input, output },
                    )
                } else {
                    (
                        Transaction { phase: Phase::Done, ..t },
                        TransactionAction::Finish(Ok(delta)),
                    )
                }
            },
        },
        (Phase::DiscardingGrowth { delta }, TransactionEvent::Deleted(r)) => match r {
            Err(e) => (Transaction { phase: Phase::Done, ..t }, TransactionAction::Finish(Err(e))),
            Ok(_) => (
                Transaction { phase: Phase::Done, ..t },
                TransactionAction::Finish(Ok(delta)),
            ),
        },
        (
            Phase::CheckingDestination { delta, output },
            TransactionEvent::DestinationStatus { destination, exists },
        ) => {
            if exists && destination@ != t.input@ {
                (
                    Transaction { phase: Phase::Done, ..t },
                    TransactionAction::Finish(Err(Error::OutputExists(destination))),
                )
            } else {
                (
                    Transaction {
                        phase: Phase::AllocatingReplaceTemp { delta, output, destination },
                        ..t
                    },
                    TransactionAction::AllocateReplaceTemp { input: t.input },
                )
            }
        },
        (
            Phase::AllocatingReplaceTemp { delta, output, destination },
            TransactionEvent::TempReady(temp),
        ) => (
            Transaction {
                phase: Phase::RenamingInput { delta, output, destination, temp },
                ..t
            },
            TransactionAction::Rename { from: t.input, to: temp },
        ),
        (
            Phase::RenamingInput { delta, output, destination, temp },
            TransactionEvent::Renamed(r),
        ) => match r {
            Err(e) => (Transaction { phase: Phase::Done, ..t }, TransactionAction::Finish(Err(e))),
            Ok(_) => (
                Transaction { phase: Phase::RenamingOutput { delta, temp }, ..t },
                TransactionAction::Rename { from: output, to: destination },
            ),
        },
        (Phase::RenamingOutput { delta, temp }, TransactionEvent::Renamed(r)) => match r {
            Err(e) => (Transaction { phase: Phase::Done, ..t }, TransactionAction::Finish(Err(e))),
            Ok(_) => (
                Transaction { phase: Phase::RemovingTemp { delta }, ..t },
                TransactionAction::DeleteIfExists { path: temp },
            ),
        },
        (Phase::RemovingTemp { delta }, TransactionEvent::CleanupDone) => (
            Transaction { phase: Phase::Done, ..t },
            TransactionAction::Finish(Ok(delta)),
        ),
        (ph, _) => (Transaction { phase: ph, ..t }, TransactionAction::Ignore),
    }
}

impl Transaction {
    /// A fresh job for one input: it will embed this library's own
    /// marker, and place output per the given policy.
    pub fn new(input: String, output_options: OutputOptions, no_grow: bool) -> (r: Self)
        ensures
            r.input == input,
            r.marker@ == comment::spec_format(comment::product_name(), comment::default_version()),
            r.output_options == output_options,
            r.no_grow == no_grow,
            r.phase is Start,
    {
        let marker = Comment::default().format();
        Transaction { input, marker, output_options, no_grow, phase: Phase::Start }
    }

    /// Whether the job has resolved.
    pub fn is_done(&self) -> (r: bool)
        ensures
            r == (self.phase is Done),
    {
        match self.phase {
            Phase::Done => true,
            _ => false,
        }
    }

    /// Feed one observed event in; returns what to do next.
    pub fn step(&mut self, event: TransactionEvent) -> (a: TransactionAction)
        requires
            !(old(self).phase is Done),
        ensures
            (*final(self), a) == transition(*old(self), event),
    {
        let mut ph = Phase::Done;
        core::mem::swap(&mut ph, &mut self.phase);
        match (ph, event) {
            (Phase::Start, TransactionEvent::Begin) => {
                self.phase = Phase::CheckingInput;
                TransactionAction::CheckInput { path: self.input.clone() }
            },
            (Phase::CheckingInput, TransactionEvent::InputStatus { exists, symlink }) => {
                if !exists {
                    self.phase = Phase::Done;
                    TransactionAction::Finish(Err(Error::InputNotFound(self.input.clone())))
                } else if symlink {
                    self.phase = Phase::Done;
                    TransactionAction::Finish(Err(Error::InputIsSymlink(self.input.clone())))
                } else {
                    self.phase = Phase::Identifying;
                    TransactionAction::Identify { path: self.input.clone() }
                }
            },
            (Phase::Identifying, TransactionEvent::Identified(r)) => match r {
                Err(e) => {
                    self.phase = Phase::Done;
                    TransactionAction::Finish(Err(e))
                },
                Ok(None) => {
                    self.phase = Phase::Done;
                    TransactionAction::Finish(Err(Error::InputFormatUnknown(self.input.clone())))
                },
                Ok(Some(mime)) => match crate::shrink::kind_for_mime(mime.as_str()) {
                    None => {
                        self.phase = Phase::Done;
                        TransactionAction::Finish(
                            Err(Error::InputFormatUnknown(self.input.clone())),
                        )
                    },
                    Some(kind) => {
                        self.phase = Phase::Resolving { kind };
                        TransactionAction::ResolveTool { kind }
                    },
                },
            },
            (Phase::Resolving { kind: _ }, TransactionEvent::ToolResolved(r)) => match r {
                Err(e) => {
                    self.phase = Phase::Done;
                    TransactionAction::Finish(Err(e))
                },
                Ok(tool) => {
                    let a = TransactionAction::RunProbe {
                        tool: tool.duplicate(),
                        input: self.input.clone(),
                    };
                    self.phase = Phase::Probing { tool };
                    a
                },
            },
            (Phase::Probing { tool }, TransactionEvent::Probed(r)) => match r {
                Err(e) => {
                    self.phase = Phase::Done;
                    TransactionAction::Finish(Err(e))
                },
                Ok(Some(c)) => {
                    self.phase = Phase::Done;
                    TransactionAction::Finish(Err(Error::AlreadyConverted(c)))
                },
                Ok(None) => {
                    let a = TransactionAction::AllocateOutput {
                        tool: tool.duplicate(),
                        input: self.input.clone(),
                    };
                    self.phase = Phase::AllocatingOutput { tool };
                    a
                },
            },
            (Phase::AllocatingOutput { tool }, TransactionEvent::OutputReady(r)) => match r {
                Err(e) => {
                    self.phase = Phase::Done;
                    TransactionAction::Finish(Err(e))
                },
                Ok(output) => match tool.kind() {
                    ToolKind::Image => {
                        let a = TransactionAction::RunImageTool {
                            tool: tool.duplicate(),
                            input: self.input.clone(),
                            marker: self.marker.clone(),
                            output: output.clone(),
                        };
                        self.phase = Phase::Running { tool, output };
                        a
                    },
                    ToolKind::Video => {
                        let a = TransactionAction::AllocateLog { input: self.input.clone() };
                        self.phase = Phase::AllocatingLog { tool, output };
                        a
                    },
                },
            },
            (Phase::AllocatingLog { tool, output }, TransactionEvent::LogReady(r)) => match r {
                Err(e) => {
                    self.phase = Phase::Done;
                    TransactionAction::Finish(Err(e))
                },
                Ok(log) => {
                    let a = TransactionAction::RunVideoPass1 {
                        tool: tool.duplicate(),
                        input: self.input.clone(),
                        log: log.clone(),
                    };
                    self.phase = Phase::RunningPass1 { tool, output, log };
                    a
                },
            },
            (Phase::Running { tool, output }, TransactionEvent::ToolFinished(r)) => match r {
                Err(e) => {
                    self.phase = Phase::CleaningOutput { err: e };
                    TransactionAction::DeleteIfExists { path: output }
                },
                Ok(outcome) => {
                    if outcome.cancelled {
                        self.phase = Phase::CleaningOutput { err: Error::Cancelled };
                        TransactionAction::DeleteIfExists { path: output }
                    } else if !outcome.exit.success {
                        self.phase = Phase::CleaningOutput {
                            err: Error::Invocation(tool.kind(), outcome.exit),
                        };
                        TransactionAction::DeleteIfExists { path: output }
                    } else {
                        let a = TransactionAction::Measure {
                            input: self.input.clone(),
                            output: output.clone(),
                        };
                        self.phase = Phase::Measuring { output };
                        a
                    }
                },
            },
            (Phase::RunningPass1 { tool, output, log }, TransactionEvent::ToolFinished(r)) => match r {
                Err(e) => {
                    self.phase = Phase::CleaningLogPass1 { err: e };
                    TransactionAction::DeletePassLog { log }
                },
                Ok(outcome) => {
                    if outcome.cancelled {
                        self.phase = Phase::CleaningLogPass1 { err: Error::Cancelled };
                        TransactionAction::DeletePassLog { log }
                    } else if !outcome.exit.success {
                        self.phase = Phase::CleaningLogPass1 {
                            err: Error::Invocation(tool.kind(), outcome.exit),
                        };
                        TransactionAction::DeletePassLog { log }
                    } else {
                        let a = TransactionAction::RunVideoPass2 {
                            tool: tool.duplicate(),
                            input: self.input.clone(),
                            marker: self.marker.clone(),
                            log: log.clone(),
                            output: output.clone(),
                        };
                        self.phase = Phase::RunningPass2 { tool, output, log };
                        a
                    }
                },
            },
            (Phase::CleaningLogPass1 { err }, TransactionEvent::CleanupDone) => {
                self.phase = Phase::Done;
                TransactionAction::Finish(Err(err))
            },
            (Phase::RunningPass2 { tool: _, output, log }, TransactionEvent::ToolFinished(r)) => {
                self.phase = Phase::CleaningLogPass2 { outcome: r, output };
                TransactionAction::DeletePassLog { log }
            },
            (Phase::CleaningLogPass2 { outcome, output }, TransactionEvent::CleanupDone) => match outcome {
                Err(e) => {
                    self.phase = Phase::CleaningOutput { err: e };
                    TransactionAction::DeleteIfExists { path: output }
                },
                Ok(oc) => {
                    if oc.cancelled {
                        self.phase = Phase::CleaningOutput { err: Error::Cancelled };
                        TransactionAction::DeleteIfExists { path: output }
                    } else if !oc.exit.success {
                        self.phase = Phase::CleaningOutput {
                            err: Error::Invocation(ToolKind::Video, oc.exit),
                        };
                        TransactionAction::DeleteIfExists { path: output }
                    } else {
                        let a = TransactionAction::Measure {
                            input: self.input.clone(),
                            output: output.clone(),
                        };
                        self.phase = Phase::Measuring { output };
                        a
                    }
                },
            },
            (Phase::CleaningOutput { err }, TransactionEvent::CleanupDone) => {
                self.phase = Phase::Done;
                TransactionAction::Finish(Err(err))
            },
            (Phase::Measuring { output }, TransactionEvent::Measured(r)) => match r {
                Err(e) => {
                    self.phase = Phase::Done;
                    TransactionAction::Finish(Err(e))
                },
                Ok(delta) => {
                    if self.no_grow && delta.original < delta.new {
                        self.phase = Phase::DiscardingGrowth { delta };
                        TransactionAction::DeleteOutput { path: output }
                    } else if self.output_options.should_replace() {
                        let a = TransactionAction::CheckDestination {
                            input: self.input.clone(),
                            output: output.clone(),
                        };
                        self.phase = Phase::CheckingDestination { delta, output };
                        a
                    } else {
                        self.phase = Phase::Done;
                        TransactionAction::Finish(Ok(delta))
                    }
                },
            },
            (Phase::DiscardingGrowth { delta }, TransactionEvent::Deleted(r)) => match r {
                Err(e) => {
                    self.phase = Phase::Done;
                    TransactionAction::Finish(Err(e))
                },
                Ok(_) => {
                    self.phase = Phase::Done;
                    TransactionAction::Finish(Ok(delta))
                },
            },
            (
                Phase::CheckingDestination { delta, output },
                TransactionEvent::DestinationStatus { destination, exists },
            ) => {
                if exists && !text::str_eq(destination.as_str(), self.input.as_str()) {
                    self.phase = Phase::Done;
                    TransactionAction::Finish(Err(Error::OutputExists(destination)))
                } else {
                    let a = TransactionAction::AllocateReplaceTemp {
                        input: self.input.clone(),
                    };
                    self.phase = Phase::AllocatingReplaceTemp { delta, output, destination };
                    a
                }
            },
            (
                Phase::AllocatingReplaceTemp { delta, output, destination },
                TransactionEvent::TempReady(temp),
            ) => {
                let a = TransactionAction::Rename {
                    from: self.input.clone(),
                    to: temp.clone(),
                };
                self.phase = Phase::RenamingInput { delta, output, destination, temp };
                a
            },
            (
                Phase::RenamingInput { delta, output, destination, temp },
                TransactionEvent::Renamed(r),
            ) => match r {
                Err(e) => {
                    self.phase = Phase::Done;
                    TransactionAction::Finish(Err(e))
                },
                Ok(_) => {
                    self.phase = Phase::RenamingOutput { delta, temp };
                    TransactionAction::Rename { from: output, to: destination }
                },
            },
            (Phase::RenamingOutput { delta, temp }, TransactionEvent::Renamed(r)) => match r {
                Err(e) => {
                    self.phase = Phase::Done;
                    TransactionAction::Finish(Err(e))
                },
                Ok(_) => {
                    self.phase = Phase::RemovingTemp { delta };
                    TransactionAction::DeleteIfExists { path: temp }
                },
            },
            (Phase::RemovingTemp { delta }, TransactionEvent::CleanupDone) => {
                self.phase = Phase::Done;
                TransactionAction::Finish(Ok(delta))
            },
            (ph2, _) => {
                self.phase = ph2;
                TransactionAction::Ignore
            },
        }
    }
}

/// The replace destination for an input: the input path wearing the
/// output's extension.
pub fn destination_for(input: &str, output: &str) -> (r: String)
    requires
        pathname::spec_extension(output@) is Some,
    ensures
        r@ == pathname::spec_with_extension(input@, pathname::spec_extension(output@).unwrap()),
{
    let ext = match pathname::extension(output) {
        Some(e) => e,
        None => "",
    };
    pathname::with_extension(input, ext)
}

/// What a finished probe invocation establishes: a failed probe
/// is an invocation error; a successful one yields the embedded marker
/// when its line is present and its text passes the codec, and "no
/// marker" otherwise (a missing tag and an unparsable text alike).
pub fn probe_outcome(kind: ToolKind, exit: ExitInfo, out: &str) -> (r: Result<Option<Comment>, Error>)
    ensures
        match r {
            Err(e) => !exit.success && e == Error::Invocation(kind, exit),
            Ok(opt) => exit.success && (opt matches Some(c) ==> match kind {
                ToolKind::Image => exists|i: int, start: int, e: int|
                    #![trigger text::is_first_match(out@, "Comment:"@, i), text::is_line_end(out@, start, e)]
                    text::is_first_match(out@, "Comment:"@, i) && start == i + "Comment:"@.len()
                        && text::is_line_end(out@, start, e) && comment::spec_parse(
                        comment::product_name(),
                        text::trimmed(out@.subrange(start, e)),
                    ) == Ok::<Seq<char>, comment::CommentParseError>(c.version@),
                ToolKind::Video => exists|i: int, e: int, cc: int|
                    #![trigger text::is_line_end(out@, i, e), text::is_first_char_in(out@, i, e, ':', cc)]
                    text::is_first_match(out@, "COMMENT"@, i) && text::is_line_end(out@, i, e)
                        && text::is_first_char_in(out@, i, e, ':', cc) && comment::spec_parse(
                        comment::product_name(),
                        text::trimmed(out@.subrange(cc + 1, e)),
                    ) == Ok::<Seq<char>, comment::CommentParseError>(c.version@),
            }) && (opt is None ==> match kind {
                ToolKind::Image => (forall|i: int| !text::matches_at(out@, "Comment:"@, i)) || (
                exists|i: int, start: int, e: int|
                    #![trigger text::is_first_match(out@, "Comment:"@, i), text::is_line_end(out@, start, e)]
                    text::is_first_match(out@, "Comment:"@, i) && start == i + "Comment:"@.len()
                        && text::is_line_end(out@, start, e) && (comment::spec_parse(
                        comment::product_name(),
                        text::trimmed(out@.subrange(start, e)),
                    ) is Err)),
                ToolKind::Video => (forall|i: int| !text::matches_at(out@, "COMMENT"@, i)) || (
                exists|i: int, e: int|
                    #![trigger text::is_line_end(out@, i, e)]
                    text::is_first_match(out@, "COMMENT"@, i) && text::is_line_end(out@, i, e) && (
                    forall|j: int| i <= j < e ==> out@[j] != ':')) || (exists|i: int, e: int, cc: int|
                    #![trigger text::is_line_end(out@, i, e), text::is_first_char_in(out@, i, e, ':', cc)]
                    text::is_first_match(out@, "COMMENT"@, i) && text::is_line_end(out@, i, e)
                        && text::is_first_char_in(out@, i, e, ':', cc) && (comment::spec_parse(
                        comment::product_name(),
                        text::trimmed(out@.subrange(cc + 1, e)),
                    ) is Err)),
            }),
        },
{
    if !exit.success {
        return Err(Error::Invocation(kind, exit));
    }
    let extracted = match kind {
        ToolKind::Image => image::extract_comment(out),
        ToolKind::Video => video::extract_comment(out),
    };
    match extracted {
        None => Ok(None),
        Some(t) => match Comment::parse(t.as_str()) {
            Ok(c) => Ok(Some(c)),
            Err(_) => Ok(None),
        },
    }
}

/// Law: a destination that already exists and differs from the input
/// fails the replace at once, and nothing has been renamed — the
/// transaction resolves without emitting any mutating action, so both
/// the input and the output stay untouched.
pub proof fn lemma_replace_collision(
    t: Transaction,
    delta: Delta,
    output: String,
    destination: String,
)
    requires
        t.phase == (Phase::CheckingDestination { delta, output }),
        destination@ != t.input@,
    ensures
        (transition(
            t,
            TransactionEvent::DestinationStatus { destination, exists: true },
        ).0.phase is Done),
        transition(t, TransactionEvent::DestinationStatus { destination, exists: true }).1
            == TransactionAction::Finish(Err(Error::OutputExists(destination))),
{
}

/// Law: nothing on disk is touched before a conversion ran: up to and
/// including the probe phase the transaction only ever asks for checks,
/// identification, resolution and probing — never a rename or a
/// deletion. A job that skips (unsupported, or already converted) has
/// therefore mutated nothing.
pub proof fn lemma_no_mutation_before_run(t: Transaction, e: TransactionEvent)
    requires
        t.phase matches Phase::Start || t.phase matches Phase::CheckingInput || t.phase
            matches Phase::Identifying || t.phase matches Phase::Resolving { .. } || t.phase
            matches Phase::Probing { .. },
    ensures
        !(transition(t, e).1 matches TransactionAction::Rename { .. }),
        !(transition(t, e).1 matches TransactionAction::DeleteIfExists { .. }),
        !(transition(t, e).1 matches TransactionAction::DeleteOutput { .. }),
        !(transition(t, e).1 matches TransactionAction::DeletePassLog { .. }),
{
}

/// Law: a rename is requested only inside the replace, from the phases
/// that follow a destination check that passed: the collision answer is
/// final before anything moves.
pub proof fn lemma_renames_only_inside_replace(t: Transaction, e: TransactionEvent)
    ensures
        (transition(t, e).1 matches TransactionAction::Rename { .. }) ==> ((t.phase
            matches Phase::AllocatingReplaceTemp { .. }) || (t.phase
            matches Phase::RenamingInput { .. })),
{
}

/// Law: the replace relocates the input to the fresh temp name before
/// anything touches the destination: the first rename it ever requests
/// moves the input aside, never over another file.
pub proof fn lemma_replace_relocates_first(
    t: Transaction,
    delta: Delta,
    output: String,
    destination: String,
    temp: String,
)
    requires
        t.phase == (Phase::AllocatingReplaceTemp { delta, output, destination }),
    ensures
        transition(t, TransactionEvent::TempReady(temp)).1 == (TransactionAction::Rename {
            from: t.input,
            to: temp,
        }),
{
}

/// Law: if renaming the output onto the destination fails after the
/// input was relocated, the job reports that failure and asks for no
/// cleanup: the relocated original stays recoverable at its temp name.
pub proof fn lemma_failed_swap_keeps_residue(t: Transaction, delta: Delta, temp: String, e: Error)
    requires
        t.phase == (Phase::RenamingOutput { delta, temp }),
    ensures
        (transition(t, TransactionEvent::Renamed(Err(e))).0.phase is Done),
        transition(t, TransactionEvent::Renamed(Err(e))).1 == TransactionAction::Finish(Err(e)),
{
}

/// Law: a cancel observed by the supervisor takes precedence over the
/// exit status: whatever the child reported, the single-pass run cleans
/// its partial output and the job then resolves Cancelled.
pub proof fn lemma_cancel_precedence(
    t: Transaction,
    tool: ShrinkTool,
    output: String,
    outcome: SupervisorOutcome,
)
    requires
        t.phase == (Phase::Running { tool, output }),
        outcome.cancelled,
    ensures
        transition(t, TransactionEvent::ToolFinished(Ok(outcome))).0.phase == (
        Phase::CleaningOutput { err: Error::Cancelled }),
        transition(t, TransactionEvent::ToolFinished(Ok(outcome))).1 == (
        TransactionAction::DeleteIfExists { path: output }),
{
}

/// Law: once a partial output has been cleaned after a failure, the job
/// resolves with exactly the error that caused the cleanup.
pub proof fn lemma_cleanup_reports_cause(t: Transaction, err: Error)
    requires
        t.phase == (Phase::CleaningOutput { err }),
    ensures
        (transition(t, TransactionEvent::CleanupDone).0.phase is Done),
        transition(t, TransactionEvent::CleanupDone).1 == TransactionAction::Finish(
            Err(err),
        ),
{
}

/// Law: an input whose type no tool handles — `image/gif` among them —
/// is skipped as unsupported, with no tool resolved, no probe, and no
/// output ever requested.
pub proof fn lemma_unsupported_skips(t: Transaction, mime: String)
    requires
        t.phase is Identifying,
        tool_kind_for(mime@) is None,
    ensures
        (transition(t, TransactionEvent::Identified(Ok(Some(mime)))).0.phase is Done),
        transition(t, TransactionEvent::Identified(Ok(Some(mime)))).1 == TransactionAction::Finish(
            Err(Error::InputFormatUnknown(t.input)),
        ),
{
}

/// Law: `image/gif` in particular selects no tool.
pub proof fn lemma_gif_unsupported(mime: Seq<char>)
    ensures
        mime == "image/gif"@ ==> tool_kind_for(mime) is None,
{
}

/// Law: a marker found by the probe ends the job as AlreadyConverted
/// before any conversion is invoked: the probe phase precedes every run
/// phase, and this transition resolves the job at once.
pub proof fn lemma_marker_skips(t: Transaction, tool: ShrinkTool, c: Comment)
    requires
        t.phase == (Phase::Probing { tool }),
    ensures
        (transition(t, TransactionEvent::Probed(Ok(Some(c)))).0.phase is Done),
        transition(t, TransactionEvent::Probed(Ok(Some(c)))).1 == TransactionAction::Finish(
            Err(Error::AlreadyConverted(c)),
        ),
{
}

/// Law: the marker a conversion embeds is accepted when read back — the
/// argv of every run carries the formatted marker, and parsing that text
/// yields exactly the version that went in. Together with the previous
/// law, a second run over a first run's output skips as AlreadyConverted.
pub proof fn lemma_embedded_marker_reparses(version: Seq<char>)
    ensures
        comment::is_semver(version) ==> comment::spec_parse(
            comment::product_name(),
            comment::spec_format(comment::product_name(), version),
        ) == Ok::<Seq<char>, comment::CommentParseError>(version),
{
    comment::lemma_marker_round_trip(comment::product_name(), version);
}

} // verus!
