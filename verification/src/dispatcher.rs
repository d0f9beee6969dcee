//! Classification of events: which action, if any, each one asks for.

use vstd::prelude::*;
use vstd::string::*;
use crate::action::{action_view, action_views, Action, ActionView, PairOrder, SignalTarget};
use crate::event::{classify_spec, key_event_spec, InputEvent, KeyClass, KeyEvent};

verus! {

/// Path of output A of the alert pair: power of the USB port.
pub open spec fn target_a_path() -> Seq<char> {
    "/sys/class/leds/power-pciusb/brightness"@
}

/// Path of output B of the alert pair: reset of the USB hub.
pub open spec fn target_b_path() -> Seq<char> {
    "/sys/class/leds/reset-usbh1/brightness"@
}

/// The action that a key transition asks for.
///
/// | key     | value            | action                                   |
/// |---------|------------------|------------------------------------------|
/// | battery | 0 / other        | log "BATTERY ON" / "BATTERY OFF"         |
/// | wake-up | 1 / other        | log "IGNITION ON" / "IGNITION OFF"       |
/// | prog 1  | 0 / other        | shutdown sequence / log "KEY_PROG1 OFF"  |
/// | prog 2  | 1 / other        | assert the alert pair / clear it         |
///
/// Any other key asks for nothing.
pub open spec fn key_action_spec(key: KeyEvent) -> Option<ActionView> {
    match classify_spec(key.code) {
        KeyClass::Battery => Some(
            ActionView::LogState(
                if key.value == 0 {
                    "BATTERY ON"@
                } else {
                    "BATTERY OFF"@
                },
            ),
        ),
        KeyClass::Wakeup => Some(
            ActionView::LogState(
                if key.value == 1 {
                    "IGNITION ON"@
                } else {
                    "IGNITION OFF"@
                },
            ),
        ),
        KeyClass::Prog1 => Some(
            if key.value == 0 {
                ActionView::ShutdownSequence
            } else {
                ActionView::LogState("KEY_PROG1 OFF"@)
            },
        ),
        KeyClass::Prog2 => Some(
            ActionView::SetSignalPair(
                target_a_path(),
                target_b_path(),
                if key.value == 1 {
                    PairOrder::AssertAThenB
                } else {
                    PairOrder::ClearBThenA
                },
            ),
        ),
        KeyClass::Unrecognized => None,
    }
}

/// The action that an event asks for: that of its key transition, and none
/// for an event that reports no key.
pub open spec fn dispatch_spec(event: InputEvent) -> Option<ActionView> {
    match key_event_spec(event) {
        Some(key) => key_action_spec(key),
        None => None,
    }
}

/// The actions that a sequence of events asks for, in the order of the events.
pub open spec fn dispatch_seq(events: Seq<InputEvent>) -> Seq<ActionView>
    decreases events.len(),
{
    if events.len() == 0 {
        Seq::empty()
    } else {
        let before = dispatch_seq(events.drop_last());
        match dispatch_spec(events.last()) {
            Some(action) => before.push(action),
            None => before,
        }
    }
}

/// For each action of `dispatch_seq(events)`, the index of the event that asked for it.
pub open spec fn dispatch_sources(events: Seq<InputEvent>) -> Seq<int>
    decreases events.len(),
{
    if events.len() == 0 {
        Seq::empty()
    } else {
        let before = dispatch_sources(events.drop_last());
        match dispatch_spec(events.last()) {
            Some(_) => before.push(events.len() - 1),
            None => before,
        }
    }
}

/// The alert pair: output A, then output B.
fn alert_pair() -> (pair: (SignalTarget, SignalTarget))
    ensures
        pair.0@ == target_a_path(),
        pair.1@ == target_b_path(),
{
    (
        SignalTarget { path: String::from_str("/sys/class/leds/power-pciusb/brightness") },
        SignalTarget { path: String::from_str("/sys/class/leds/reset-usbh1/brightness") },
    )
}

/// The action that a key transition asks for, `None` for a key that is not acted on.
pub fn key_action(key: &KeyEvent) -> (action: Option<Action>)
    ensures
        action_view(action) == key_action_spec(*key),
{
    match key.class() {
        KeyClass::Battery => {
            if key.value == 0 {
                Some(Action::LogState(String::from_str("BATTERY ON")))
            } else {
                Some(Action::LogState(String::from_str("BATTERY OFF")))
            }
        },
        KeyClass::Wakeup => {
            if key.value == 1 {
                Some(Action::LogState(String::from_str("IGNITION ON")))
            } else {
                Some(Action::LogState(String::from_str("IGNITION OFF")))
            }
        },
        KeyClass::Prog1 => {
            if key.value == 0 {
                Some(Action::ShutdownSequence)
            } else {
                Some(Action::LogState(String::from_str("KEY_PROG1 OFF")))
            }
        },
        KeyClass::Prog2 => {
            let (a, b) = alert_pair();
            if key.value == 1 {
                Some(Action::SetSignalPair(a, b, PairOrder::AssertAThenB))
            } else {
                Some(Action::SetSignalPair(a, b, PairOrder::ClearBThenA))
            }
        },
        KeyClass::Unrecognized => None,
    }
}

/// The action that an event asks for. Events that report no key, and keys that
/// are not acted on, ask for none.
pub fn dispatch(event: &InputEvent) -> (action: Option<Action>)
    ensures
        action_view(action) == dispatch_spec(*event),
{
    match event.key_event() {
        Some(key) => key_action(&key),
        None => None,
    }
}

/// The actions that the events ask for, in the order of the events.
pub fn dispatch_all(events: &Vec<InputEvent>) -> (actions: Vec<Action>)
    ensures
        action_views(actions@) == dispatch_seq(events@),
{
    let mut actions: Vec<Action> = Vec::new();
    let mut i: usize = 0;
    while i < events.len()
        invariant
            i <= events.len(),
            action_views(actions@) == dispatch_seq(events@.take(i as int)),
        decreases events.len() - i,
    {
        let ghost before = actions@;
        assert(events@.take(i + 1).drop_last() == events@.take(i as int));
        match dispatch(&events[i]) {
            Some(action) => {
                actions.push(action);
                assert(action_views(actions@) == action_views(before).push(action@));
            },
            None => {},
        }
        i += 1;
    }
    assert(events@.take(i as int) == events@);
    actions
}

/// Dispatch keeps the order of the events and answers each with at most one
/// action: the events that the actions come from are met at strictly
/// increasing positions, each action is the one that its event asks for, and
/// every event that asks for an action is among them.
pub proof fn lemma_dispatch_keeps_order(events: Seq<InputEvent>)
    ensures
        dispatch_sources(events).len() == dispatch_seq(events).len(),
        dispatch_seq(events).len() <= events.len(),
        forall|j: int|
            0 <= j < dispatch_sources(events).len() ==> 0 <= #[trigger] dispatch_sources(
                events,
            )[j] < events.len(),
        forall|j: int, k: int|
            0 <= j < k < dispatch_sources(events).len() ==> dispatch_sources(events)[j]
                < dispatch_sources(events)[k],
        forall|j: int|
            0 <= j < dispatch_seq(events).len() ==> dispatch_spec(
                events[dispatch_sources(events)[j]],
            ) == Some(#[trigger] dispatch_seq(events)[j]),
        forall|i: int|
            0 <= i < events.len() && dispatch_spec(#[trigger] events[i]) is Some
                ==> dispatch_sources(events).contains(i),
    decreases events.len(),
{
    if events.len() > 0 {
        let shorter = events.drop_last();
        lemma_dispatch_keeps_order(shorter);
        let last = events.len() - 1;
        let sources = dispatch_sources(events);
        let before = dispatch_sources(shorter);
        assert forall|i: int|
            0 <= i < events.len() && dispatch_spec(#[trigger] events[i]) is Some implies sources.contains(
            i,
        ) by {
            if i < last {
                assert(events[i] == shorter[i]);
                let j = choose|j: int| 0 <= j < before.len() && before[j] == i;
                assert(sources[j] == i);
            } else {
                assert(sources[sources.len() - 1] == last);
            }
        }
        assert forall|j: int| 0 <= j < dispatch_seq(events).len() implies dispatch_spec(
            events[sources[j]],
        ) == Some(#[trigger] dispatch_seq(events)[j]) by {
            if j < before.len() {
                assert(events[before[j]] == shorter[before[j]]);
            }
        }
    }
}

/// Appending events appends their actions: what an event asks for does not
/// depend on the events around it.
pub proof fn lemma_dispatch_concat(first: Seq<InputEvent>, second: Seq<InputEvent>)
    ensures
        dispatch_seq(first + second) == dispatch_seq(first) + dispatch_seq(second),
    decreases second.len(),
{
    if second.len() == 0 {
        assert(first + second == first);
    } else {
        lemma_dispatch_concat(first, second.drop_last());
        assert((first + second).drop_last() == first + second.drop_last());
    }
}

/// A key that is not one of the four acted on asks for nothing, whatever its value.
pub proof fn lemma_unrecognized_key_is_ignored(event: InputEvent)
    requires
        classify_spec(event.code) == KeyClass::Unrecognized,
    ensures
        dispatch_spec(event) is None,
        dispatch_seq(seq![event]) == Seq::<ActionView>::empty(),
{
    let alone = seq![event];
    assert(alone.last() == event);
    assert(alone.drop_last() == Seq::<InputEvent>::empty());
    assert(dispatch_seq(alone.drop_last()) == Seq::<ActionView>::empty());
}

} // verus!
