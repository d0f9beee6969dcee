//! What a key transition asks for, and the single steps that carry it out.

use vstd::prelude::*;
use crate::gpiokey::{CommandLine, CommandLineView, SIGNAL};

verus! {

/// Severity of a log line.
#[derive(Clone, Copy, Debug, PartialEq, Eq, Structural)]
pub enum Severity {
    Info,
    Warn,
    Error,
}

/// A line for the logging sink.
#[derive(Clone, Debug, PartialEq, Eq)]
pub struct LogEntry {
    pub severity: Severity,
    pub message: String,
}

/// Mathematical content of a [`LogEntry`].
pub struct LogEntryView {
    pub severity: Severity,
    pub message: Seq<char>,
}

impl View for LogEntry {
    type V = LogEntryView;

    open spec fn view(&self) -> LogEntryView {
        LogEntryView { severity: self.severity, message: self.message@ }
    }
}

/// A digital output, named by the path that its level is written to.
#[derive(Clone, Debug, PartialEq, Eq)]
pub struct SignalTarget {
    pub path: String,
}

impl View for SignalTarget {
    type V = Seq<char>;

    open spec fn view(&self) -> Seq<char> {
        self.path@
    }
}

/// In which order, and to which level, a pair of outputs A and B is written.
#[derive(Clone, Copy, Debug, PartialEq, Eq, Structural)]
pub enum PairOrder {
    /// The alert is asserted: A goes to `ZERO`, then B goes to `ZERO`.
    AssertAThenB,
    /// The alert is cleared: B goes to `ONE`, then A goes to `ONE`.
    ClearBThenA,
}

/// What one key transition asks for.
#[derive(Clone, Debug, PartialEq, Eq)]
pub enum Action {
    /// Report a state in the log.
    LogState(String),
    /// Stop the dependent service, wait, shut the system down.
    ShutdownSequence,
    /// Write both outputs of the pair (A, B) in the given order.
    SetSignalPair(SignalTarget, SignalTarget, PairOrder),
}

/// Mathematical content of an [`Action`].
pub enum ActionView {
    LogState(Seq<char>),
    ShutdownSequence,
    SetSignalPair(Seq<char>, Seq<char>, PairOrder),
}

impl View for Action {
    type V = ActionView;

    open spec fn view(&self) -> ActionView {
        match self {
            Action::LogState(message) => ActionView::LogState(message@),
            Action::ShutdownSequence => ActionView::ShutdownSequence,
            Action::SetSignalPair(a, b, order) => ActionView::SetSignalPair(a@, b@, *order),
        }
    }
}

/// One step of carrying out an action.
#[derive(Clone, Debug, PartialEq, Eq)]
pub enum Effect {
    /// Hand a line to the logging sink.
    Log(LogEntry),
    /// Spawn a command and do not wait for it. Should the spawn fail,
    /// `failure_note` starts the warning that reports it.
    Run { command: CommandLine, failure_note: String },
    /// Write a level toward an output and do not wait for it. Should the write
    /// fail to start, `failure_note` starts the warning that reports it.
    Signal { target: SignalTarget, level: SIGNAL, failure_note: String },
    /// Wait for this many milliseconds.
    Delay(u64),
}

/// Mathematical content of an [`Effect`].
pub enum EffectView {
    Log(LogEntryView),
    Run { command: CommandLineView, failure_note: Seq<char> },
    Signal { target: Seq<char>, level: SIGNAL, failure_note: Seq<char> },
    Delay(u64),
}

impl View for Effect {
    type V = EffectView;

    open spec fn view(&self) -> EffectView {
        match self {
            Effect::Log(entry) => EffectView::Log(entry@),
            Effect::Run { command, failure_note } => EffectView::Run {
                command: command@,
                failure_note: failure_note@,
            },
            Effect::Signal { target, level, failure_note } => EffectView::Signal {
                target: target@,
                level: *level,
                failure_note: failure_note@,
            },
            Effect::Delay(millis) => EffectView::Delay(*millis),
        }
    }
}

/// The views of a sequence of effects, in the same order.
pub open spec fn effect_views(effects: Seq<Effect>) -> Seq<EffectView> {
    effects.map_values(|e: Effect| e@)
}

/// The views of a sequence of actions, in the same order.
pub open spec fn action_views(actions: Seq<Action>) -> Seq<ActionView> {
    actions.map_values(|a: Action| a@)
}

/// The view of an action that may be absent.
pub open spec fn action_view(action: Option<Action>) -> Option<ActionView> {
    match action {
        Some(a) => Some(a@),
        None => None,
    }
}

} // verus!
