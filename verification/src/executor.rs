//! Carrying out an action step by step.
//!
//! [`plan`] lays an action out as a fixed list of effects. [`ActionExecutor`]
//! hands the effects out one at a time; the caller performs each one and tells
//! the executor how it went. A failed spawn is answered with one warning and
//! nothing else: no step of a plan is ever skipped.

use std::collections::VecDeque;
use vstd::prelude::*;
use vstd::string::*;
use crate::action::{
    effect_views,
    Action,
    ActionView,
    Effect,
    EffectView,
    LogEntry,
    LogEntryView,
    PairOrder,
    Severity,
};
use crate::dispatcher::dispatch_spec;
use crate::event::{classify_spec, InputEvent, KeyClass};
use crate::gpiokey::{CommandLine, CommandLineView, SIGNAL};

verus! {

/// Milliseconds between stopping the dependent service and shutting down.
pub const SHUTDOWN_DELAY_MS: u64 = 1000;

/// `systemctl stop appfare.service`
pub open spec fn stop_service_command() -> CommandLineView {
    CommandLineView { program: "systemctl"@, args: seq!["stop"@, "appfare.service"@] }
}

/// `shutdown -h now`
pub open spec fn shutdown_command() -> CommandLineView {
    CommandLineView { program: "shutdown"@, args: seq!["-h"@, "now"@] }
}

/// Start of the warning for a failed write toward output A.
pub open spec fn target_a_failure_note() -> Seq<char> {
    "shutdown \"power-pciusb\" command failed"@
}

/// Start of the warning for a failed write toward output B.
pub open spec fn target_b_failure_note() -> Seq<char> {
    "shutdown \"reset-usbh0\" command failed"@
}

/// A log effect of the given severity and text.
pub open spec fn log_effect(severity: Severity, message: Seq<char>) -> EffectView {
    EffectView::Log(LogEntryView { severity, message })
}

/// The steps of the shutdown sequence: announce it, stop the dependent
/// service, wait the fixed delay, shut the system down.
pub open spec fn shutdown_plan() -> Seq<EffectView> {
    seq![
        log_effect(Severity::Warn, "KEY_PROG1 ON"@),
        EffectView::Run {
            command: stop_service_command(),
            failure_note: "shutdown appfare command failed"@,
        },
        EffectView::Delay(SHUTDOWN_DELAY_MS),
        EffectView::Run { command: shutdown_command(), failure_note: "shutdown command failed"@ },
    ]
}

/// The steps of writing the pair (A, B): asserting the alert writes A then B
/// to `ZERO`, clearing it writes B then A to `ONE`.
pub open spec fn signal_pair_plan(a: Seq<char>, b: Seq<char>, order: PairOrder) -> Seq<
    EffectView,
> {
    let note_a = target_a_failure_note();
    let note_b = target_b_failure_note();
    match order {
        PairOrder::AssertAThenB => seq![
            log_effect(Severity::Warn, "ADC alert ON"@),
            EffectView::Signal { target: a, level: SIGNAL::ZERO, failure_note: note_a },
            EffectView::Signal { target: b, level: SIGNAL::ZERO, failure_note: note_b },
        ],
        PairOrder::ClearBThenA => seq![
            log_effect(Severity::Info, "ADC alert OFF"@),
            EffectView::Signal { target: b, level: SIGNAL::ONE, failure_note: note_b },
            EffectView::Signal { target: a, level: SIGNAL::ONE, failure_note: note_a },
        ],
    }
}

/// The steps that carry out an action, in the order in which they are taken.
pub open spec fn plan_spec(action: ActionView) -> Seq<EffectView> {
    match action {
        ActionView::LogState(message) => seq![log_effect(Severity::Info, message)],
        ActionView::ShutdownSequence => shutdown_plan(),
        ActionView::SetSignalPair(a, b, order) => signal_pair_plan(a, b, order),
    }
}

/// The note of an effect that spawns something, `None` for a log line or a delay.
pub open spec fn failure_note_of(effect: EffectView) -> Option<Seq<char>> {
    match effect {
        EffectView::Run { failure_note, .. } => Some(failure_note),
        EffectView::Signal { failure_note, .. } => Some(failure_note),
        _ => None,
    }
}

/// The warning that reports a failed spawn: the note, then `, err: ` and the error.
pub open spec fn failure_warning(note: Seq<char>, error: Seq<char>) -> EffectView {
    log_effect(Severity::Warn, note + ", err: "@ + error)
}

fn log_step(severity: Severity, message: &str) -> (effect: Effect)
    ensures
        effect@ == log_effect(severity, message@),
{
    Effect::Log(LogEntry { severity, message: String::from_str(message) })
}

fn run_step(program: &str, first: &str, second: &str, note: &str) -> (effect: Effect)
    ensures
        effect@ == (EffectView::Run {
            command: CommandLineView { program: program@, args: seq![first@, second@] },
            failure_note: note@,
        }),
{
    let mut args: Vec<String> = Vec::new();
    args.push(String::from_str(first));
    args.push(String::from_str(second));
    let command = CommandLine { program: String::from_str(program), args };
    assert(command@.args =~= seq![first@, second@]);
    Effect::Run { command, failure_note: String::from_str(note) }
}

/// Lays an action out as the steps that carry it out.
pub fn plan(action: Action) -> (steps: Vec<Effect>)
    ensures
        effect_views(steps@) == plan_spec(action@),
{
    let mut steps: Vec<Effect> = Vec::new();
    match action {
        Action::LogState(message) => {
            steps.push(Effect::Log(LogEntry { severity: Severity::Info, message }));
        },
        Action::ShutdownSequence => {
            steps.push(log_step(Severity::Warn, "KEY_PROG1 ON"));
            steps.push(
                run_step("systemctl", "stop", "appfare.service", "shutdown appfare command failed"),
            );
            steps.push(Effect::Delay(SHUTDOWN_DELAY_MS));
            steps.push(run_step("shutdown", "-h", "now", "shutdown command failed"));
        },
        Action::SetSignalPair(a, b, order) => {
            let note_a = String::from_str("shutdown \"power-pciusb\" command failed");
            let note_b = String::from_str("shutdown \"reset-usbh0\" command failed");
            match order {
                PairOrder::AssertAThenB => {
                    steps.push(log_step(Severity::Warn, "ADC alert ON"));
                    steps.push(
                        Effect::Signal { target: a, level: SIGNAL::ZERO, failure_note: note_a },
                    );
                    steps.push(
                        Effect::Signal { target: b, level: SIGNAL::ZERO, failure_note: note_b },
                    );
                },
                PairOrder::ClearBThenA => {
                    steps.push(log_step(Severity::Info, "ADC alert OFF"));
                    steps.push(
                        Effect::Signal { target: b, level: SIGNAL::ONE, failure_note: note_b },
                    );
                    steps.push(
                        Effect::Signal { target: a, level: SIGNAL::ONE, failure_note: note_a },
                    );
                },
            }
        },
    }
    assert(effect_views(steps@) =~= plan_spec(action@));
    steps
}

/// How the effect that was handed out last went.
#[derive(Clone, Debug, PartialEq, Eq)]
pub enum Outcome {
    /// It was performed, or nothing has been handed out yet.
    Done,
    /// It was a spawn, and the spawn failed with this error.
    Failed(String),
}

/// Mathematical content of an [`Outcome`].
pub enum OutcomeView {
    Done,
    Failed(Seq<char>),
}

impl View for Outcome {
    type V = OutcomeView;

    open spec fn view(&self) -> OutcomeView {
        match self {
            Outcome::Done => OutcomeView::Done,
            Outcome::Failed(error) => OutcomeView::Failed(error@),
        }
    }
}

/// Mathematical content of an [`ActionExecutor`].
pub struct ExecutorView {
    /// The steps that have not been handed out yet, next one first.
    pub pending: Seq<EffectView>,
    /// The note of the step handed out last, if that step spawns something.
    pub awaiting: Option<Seq<char>>,
}

/// One move of the executor: the state it goes to and the effect it hands out.
///
/// A failure of the spawn handed out last is answered with its warning, and
/// the pending steps stay as they are. Otherwise the first pending step is
/// handed out. With no step left, nothing is.
pub open spec fn step_spec(state: ExecutorView, last: OutcomeView) -> (ExecutorView, Option<
    EffectView,
>) {
    match (state.awaiting, last) {
        (Some(note), OutcomeView::Failed(error)) => (
            ExecutorView { pending: state.pending, awaiting: None },
            Some(failure_warning(note, error)),
        ),
        _ => if state.pending.len() == 0 {
            (ExecutorView { pending: Seq::empty(), awaiting: None }, None)
        } else {
            (
                ExecutorView {
                    pending: state.pending.skip(1),
                    awaiting: failure_note_of(state.pending[0]),
                },
                Some(state.pending[0]),
            )
        },
    }
}

/// The view of an effect that may be absent.
pub open spec fn effect_view(effect: Option<Effect>) -> Option<EffectView> {
    match effect {
        Some(e) => Some(e@),
        None => None,
    }
}

/// Hands out the steps of one action, one at a time.
pub struct ActionExecutor {
    pending: VecDeque<Effect>,
    awaiting: Option<String>,
}

impl View for ActionExecutor {
    type V = ExecutorView;

    closed spec fn view(&self) -> ExecutorView {
        ExecutorView {
            pending: effect_views(self.pending@),
            awaiting: match self.awaiting {
                Some(note) => Some(note@),
                None => None,
            },
        }
    }
}

/// The note to keep while `effect` is being performed.
fn note_of(effect: &Effect) -> (note: Option<String>)
    ensures
        match note {
            Some(n) => failure_note_of(effect@) == Some(n@),
            None => failure_note_of(effect@) is None,
        },
{
    match effect {
        Effect::Run { failure_note, .. } => Some(failure_note.clone()),
        Effect::Signal { failure_note, .. } => Some(failure_note.clone()),
        _ => None,
    }
}

impl ActionExecutor {
    /// An executor with the whole plan of `action` pending.
    pub fn new(action: Action) -> (executor: ActionExecutor)
        ensures
            executor@ == (ExecutorView { pending: plan_spec(action@), awaiting: None }),
    {
        let mut steps = plan(action);
        let ghost all = steps@;
        let mut pending: VecDeque<Effect> = VecDeque::new();
        while steps.len() > 0
            invariant
                steps@ == all.take(steps@.len() as int),
                steps@.len() <= all.len(),
                pending@ == all.skip(steps@.len() as int),
            decreases steps.len(),
        {
            let ghost n = steps@.len();
            match steps.pop() {
                Some(step) => {
                    pending.push_front(step);
                    assert(pending@ =~= all.skip(n - 1));
                    assert(steps@ =~= all.take(n - 1));
                },
                None => {},
            }
        }
        assert(pending@ =~= all);
        ActionExecutor { pending, awaiting: None }
    }

    /// Whether every step has been handed out.
    pub fn is_finished(&self) -> (finished: bool)
        ensures
            finished == (self@.pending.len() == 0),
    {
        self.pending.len() == 0
    }

    /// Takes the outcome of the effect handed out last and hands out the next
    /// one, `None` once the plan is through.
    pub fn advance(&mut self, last: Outcome) -> (effect: Option<Effect>)
        ensures
            (final(self)@, effect_view(effect)) == step_spec(old(self)@, last@),
    {
        let awaiting = self.awaiting.take();
        match (awaiting, last) {
            (Some(note), Outcome::Failed(error)) => {
                let message = note.concat(", err: ").concat(error.as_str());
                Some(Effect::Log(LogEntry { severity: Severity::Warn, message }))
            },
            _ => {
                let ghost before = self.pending@;
                match self.pending.pop_front() {
                    Some(step) => {
                        self.awaiting = note_of(&step);
                        assert(effect_views(self.pending@) =~= effect_views(before).skip(1));
                        Some(step)
                    },
                    None => {
                        assert(effect_views(self.pending@) =~= Seq::<EffectView>::empty());
                        None
                    },
                }
            },
        }
    }
}

/// Whether the executor answers `last` with the warning of a failed spawn.
pub open spec fn reports_failure(state: ExecutorView, last: OutcomeView) -> bool {
    state.awaiting is Some && last is Failed
}

/// The effects handed out while `outcomes` are fed in one after the other,
/// up to the move that hands out nothing.
pub open spec fn run_spec(state: ExecutorView, outcomes: Seq<OutcomeView>) -> Seq<EffectView>
    decreases outcomes.len(),
{
    if outcomes.len() == 0 {
        Seq::empty()
    } else {
        let (next, effect) = step_spec(state, outcomes[0]);
        match effect {
            Some(e) => seq![e] + run_spec(next, outcomes.skip(1)),
            None => Seq::empty(),
        }
    }
}

/// Of the effects of `run_spec`, those that are steps of the plan: all but
/// the warnings of failed spawns.
pub open spec fn run_steps_spec(state: ExecutorView, outcomes: Seq<OutcomeView>) -> Seq<
    EffectView,
>
    decreases outcomes.len(),
{
    if outcomes.len() == 0 {
        Seq::empty()
    } else {
        let (next, effect) = step_spec(state, outcomes[0]);
        match effect {
            Some(e) => if reports_failure(state, outcomes[0]) {
                run_steps_spec(next, outcomes.skip(1))
            } else {
                seq![e] + run_steps_spec(next, outcomes.skip(1))
            },
            None => Seq::empty(),
        }
    }
}

/// Whether feeding in `outcomes` leads to the move that hands out nothing.
pub open spec fn run_finishes(state: ExecutorView, outcomes: Seq<OutcomeView>) -> bool
    decreases outcomes.len(),
{
    if outcomes.len() == 0 {
        false
    } else {
        let (next, effect) = step_spec(state, outcomes[0]);
        match effect {
            Some(_) => run_finishes(next, outcomes.skip(1)),
            None => true,
        }
    }
}

/// No outcome makes the executor skip a step: a move either hands out the
/// first pending step and keeps the others, or hands out the warning of a
/// failed spawn and keeps them all, or finds nothing pending.
pub proof fn lemma_step_skips_nothing(state: ExecutorView, last: OutcomeView)
    ensures
        ({
            let (next, effect) = step_spec(state, last);
            if reports_failure(state, last) {
                &&& next.pending == state.pending
                &&& effect == Some(
                    failure_warning(state.awaiting->Some_0, last->Failed_0),
                )
            } else if state.pending.len() > 0 {
                &&& next.pending == state.pending.skip(1)
                &&& effect == Some(state.pending[0])
            } else {
                &&& next.pending == state.pending
                &&& effect is None
            }
        }),
{
    assert(state.pending.len() == 0 ==> state.pending =~= Seq::<EffectView>::empty());
}

/// Whatever the outcomes, the steps handed out are the pending ones from the
/// first on, in their order and without a gap; and a run that comes to its
/// end has handed out every one of them.
pub proof fn lemma_run_follows_plan(state: ExecutorView, outcomes: Seq<OutcomeView>)
    ensures
        run_steps_spec(state, outcomes).len() <= state.pending.len(),
        run_steps_spec(state, outcomes) == state.pending.take(
            run_steps_spec(state, outcomes).len() as int,
        ),
        run_finishes(state, outcomes) ==> run_steps_spec(state, outcomes) == state.pending,
    decreases outcomes.len(),
{
    if outcomes.len() > 0 {
        let (next, effect) = step_spec(state, outcomes[0]);
        let rest = outcomes.skip(1);
        lemma_step_skips_nothing(state, outcomes[0]);
        if effect is Some {
            lemma_run_follows_plan(next, rest);
            let tail = run_steps_spec(next, rest);
            if !reports_failure(state, outcomes[0]) {
                let steps = seq![state.pending[0]] + tail;
                assert(steps =~= state.pending.take(steps.len() as int));
                if run_finishes(state, outcomes) {
                    assert(steps =~= state.pending);
                }
            }
        } else {
            assert(state.pending =~= Seq::<EffectView>::empty());
        }
    } else {
        assert(state.pending.take(0) =~= Seq::<EffectView>::empty());
    }
}

/// A run comes to its end once two outcomes have been fed in for every
/// pending step and two more.
pub proof fn lemma_run_ends(state: ExecutorView, outcomes: Seq<OutcomeView>)
    requires
        outcomes.len() >= 2 * state.pending.len() + 2,
    ensures
        run_finishes(state, outcomes),
    decreases outcomes.len(),
{
    let (next, effect) = step_spec(state, outcomes[0]);
    if effect is Some {
        if reports_failure(state, outcomes[0]) {
            let rest = outcomes.skip(1);
            let (after, second) = step_spec(next, rest[0]);
            if second is Some {
                lemma_run_ends(after, rest.skip(1));
            }
            assert(run_finishes(next, rest));
        } else {
            lemma_run_ends(next, outcomes.skip(1));
        }
    }
}

/// Carrying out an action hands out exactly the steps of its plan, in their
/// order, however the spawns among them go.
pub proof fn lemma_action_runs_whole_plan(action: ActionView, outcomes: Seq<OutcomeView>)
    requires
        outcomes.len() >= 2 * plan_spec(action).len() + 2,
    ensures
        run_steps_spec(
            ExecutorView { pending: plan_spec(action), awaiting: None },
            outcomes,
        ) == plan_spec(action),
{
    let start = ExecutorView { pending: plan_spec(action), awaiting: None };
    lemma_run_ends(start, outcomes);
    lemma_run_follows_plan(start, outcomes);
}

/// All the steps that an event leads to: those of the action it asks for,
/// and none if it asks for none.
pub open spec fn event_steps_spec(event: InputEvent) -> Seq<EffectView> {
    match dispatch_spec(event) {
        Some(action) => plan_spec(action),
        None => Seq::empty(),
    }
}

/// An event whose code is not one of the four keys acted on leads to no
/// action and to no step, so to no log line either, whatever its type and
/// its value.
pub proof fn lemma_unrecognized_key_does_nothing(event: InputEvent)
    requires
        classify_spec(event.code) == KeyClass::Unrecognized,
    ensures
        dispatch_spec(event) is None,
        event_steps_spec(event) == Seq::<EffectView>::empty(),
{
}

} // verus!
