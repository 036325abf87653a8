//! Laws of forwarding items from one runtime to another.
use vstd::prelude::*;

use crate::physical_plan::bridge::{
    expects, transition, BridgeAction, BridgeEvent, BridgeState,
};

verus! {

/// Every item, an error among them, is sent as it came and nothing else is sent; the next item is
/// asked for once the reader is open and whenever one was taken; the task ends at the end of the
/// reader, when the receiver is gone, and once the error of a failed opening was taken.
pub proof fn lemma_bridge_steps<I>(item: I)
    ensures
        transition(BridgeState::Opening, BridgeEvent::<I>::Opened) == (
            BridgeState::Reading,
            BridgeAction::<I>::ReadNext,
        ),
        transition(BridgeState::Opening, BridgeEvent::OpenFailed(item)) == (
            BridgeState::SendingOpenError,
            BridgeAction::Send(item),
        ),
        transition(BridgeState::Reading, BridgeEvent::Item(item)) == (
            BridgeState::Sending,
            BridgeAction::Send(item),
        ),
        transition(BridgeState::Reading, BridgeEvent::<I>::EndOfStream) == (
            BridgeState::Closed,
            BridgeAction::<I>::Stop,
        ),
        transition(BridgeState::Sending, BridgeEvent::<I>::Sent) == (
            BridgeState::Reading,
            BridgeAction::<I>::ReadNext,
        ),
        transition(BridgeState::Sending, BridgeEvent::<I>::ReceiverDropped) == (
            BridgeState::Closed,
            BridgeAction::<I>::Stop,
        ),
        transition(BridgeState::SendingOpenError, BridgeEvent::<I>::Sent) == (
            BridgeState::Closed,
            BridgeAction::<I>::Stop,
        ),
        transition(BridgeState::SendingOpenError, BridgeEvent::<I>::ReceiverDropped) == (
            BridgeState::Closed,
            BridgeAction::<I>::Stop,
        ),
{
}

/// The events that can happen are those that answer what the task is waiting for.
pub proof fn lemma_bridge_expects<I>(event: BridgeEvent<I>)
    ensures
        expects(BridgeState::Opening, event) <==> event is Opened || event is OpenFailed,
        expects(BridgeState::Reading, event) <==> event is Item || event is EndOfStream,
        expects(BridgeState::Sending, event) <==> event is Sent || event is ReceiverDropped,
        expects(BridgeState::SendingOpenError, event) <==> event is Sent
            || event is ReceiverDropped,
        !expects(BridgeState::Closed, event),
{
}

/// A run of the forwarding task: `states[i]` before `events[i]`, which the reader and the channel
/// answered to `actions[i - 1]`. What it has sent is what the reader has yielded, item by item and
/// in order, from the first on.
pub proof fn lemma_sent_is_what_was_read<I>(
    states: Seq<BridgeState>,
    events: Seq<BridgeEvent<I>>,
    actions: Seq<BridgeAction<I>>,
)
    requires
        states.len() == events.len() + 1,
        actions.len() == events.len(),
        states[0] == BridgeState::Opening,
        forall|i: int|
            0 <= i < events.len() ==> expects(states[i], #[trigger] events[i]) && (
                states[i + 1],
                actions[i],
            ) == transition(states[i], events[i]),
    ensures
        forall|i: int|
            #![trigger actions[i]]
            0 <= i < events.len() ==> match events[i] {
                BridgeEvent::Item(item) => actions[i] == BridgeAction::Send(item),
                BridgeEvent::OpenFailed(error) => actions[i] == BridgeAction::Send(error) && i == 0,
                _ => !(actions[i] is Send),
            },
        forall|i: int|
            #![trigger actions[i]]
            0 <= i < events.len() && actions[i] is Stop ==> i == events.len() - 1 && (
            events[i] is EndOfStream || events[i] is ReceiverDropped || (events[i] is Sent && i == 1
                && events[0] is OpenFailed)),
{
    assert forall|i: int|
        #![trigger actions[i]]
        0 <= i < events.len() implies match events[i] {
        BridgeEvent::Item(item) => actions[i] == BridgeAction::Send(item),
        BridgeEvent::OpenFailed(error) => actions[i] == BridgeAction::Send(error) && i == 0,
        _ => !(actions[i] is Send),
    } by {
        assert(expects(states[i], events[i]));
        if i > 0 {
            assert(expects(states[i - 1], events[i - 1]));
        }
    }
    assert forall|i: int|
        #![trigger actions[i]]
        0 <= i < events.len() && actions[i] is Stop implies i == events.len() - 1 && (
    events[i] is EndOfStream || events[i] is ReceiverDropped || (events[i] is Sent && i == 1
        && events[0] is OpenFailed)) by {
        assert(expects(states[i], events[i]));
        if i + 1 < events.len() {
            assert(expects(states[i + 1], events[i + 1]));
        }
        if i > 0 {
            assert(expects(states[i - 1], events[i - 1]));
            if i > 1 {
                assert(expects(states[i - 2], events[i - 2]));
            }
        }
    }
}

} // verus!
