//! Reading on one runtime and consuming on another: where a read runs, and how its items are
//! forwarded through a channel.
use tokio::runtime::Handle;
use vstd::prelude::*;

verus! {

/// Channel buffer size for streaming record batches between runtimes.
pub const CHANNEL_BUFFER_SIZE: usize = 32;

/// Where the files of a partition are read.
#[derive(Debug)]
pub enum ReadRuntime<'a> {
    /// On the runtime that polls the stream.
    Caller,
    /// On the runtime of `handle`, with the items sent through a channel of this capacity.
    Io { handle: &'a Handle, channel_capacity: usize },
}

/// Where a read with the handle `io_handle`, if any, runs.
pub open spec fn runtime_for(io_handle: Option<Handle>) -> ReadRuntime<'static> {
    match io_handle {
        Some(handle) => ReadRuntime::Io {
            handle: &handle,
            channel_capacity: CHANNEL_BUFFER_SIZE,
        },
        None => ReadRuntime::Caller,
    }
}

/// A read runs on the runtime that was attached, if one was.
pub fn read_runtime(io_handle: &Option<Handle>) -> (runtime: ReadRuntime<'_>)
    ensures
        runtime == runtime_for(*io_handle),
{
    match io_handle {
        Some(handle) => ReadRuntime::Io { handle, channel_capacity: CHANNEL_BUFFER_SIZE },
        None => ReadRuntime::Caller,
    }
}

/// What the forwarding task is waiting for.
#[derive(Debug, Clone, Copy, PartialEq, Eq, Structural)]
pub enum BridgeState {
    /// The reader is being opened.
    Opening,
    /// The next item of the reader.
    Reading,
    /// The channel to take an item.
    Sending,
    /// The channel to take the error that the reader could not be opened with.
    SendingOpenError,
    /// Nothing: the task is over and its end of the channel is closed.
    Closed,
}

/// What has happened.
#[derive(Debug)]
pub enum BridgeEvent<I> {
    /// The reader is open.
    Opened,
    /// The reader could not be opened; this is the error as an item of the stream.
    OpenFailed(I),
    /// The reader has yielded an item, a batch or an error.
    Item(I),
    /// The reader has no more items.
    EndOfStream,
    /// The channel has taken the item.
    Sent,
    /// The receiver is gone: the query was cancelled.
    ReceiverDropped,
}

/// What the task does next.
#[derive(Debug)]
pub enum BridgeAction<I> {
    /// Ask the reader for its next item.
    ReadNext,
    /// Send this item into the channel.
    Send(I),
    /// Finish.
    Stop,
}

/// The events that can happen in a state.
pub open spec fn expects<I>(state: BridgeState, event: BridgeEvent<I>) -> bool {
    match state {
        BridgeState::Opening => event is Opened || event is OpenFailed,
        BridgeState::Reading => event is Item || event is EndOfStream,
        BridgeState::Sending | BridgeState::SendingOpenError => {
            event is Sent || event is ReceiverDropped
        },
        BridgeState::Closed => false,
    }
}

/// The state after an event, and what the task does.
pub open spec fn transition<I>(state: BridgeState, event: BridgeEvent<I>) -> (
    BridgeState,
    BridgeAction<I>,
) {
    match event {
        BridgeEvent::Opened => (BridgeState::Reading, BridgeAction::ReadNext),
        BridgeEvent::OpenFailed(error) => (
            BridgeState::SendingOpenError,
            BridgeAction::Send(error),
        ),
        BridgeEvent::Item(item) => (BridgeState::Sending, BridgeAction::Send(item)),
        BridgeEvent::Sent if state == BridgeState::Sending => (
            BridgeState::Reading,
            BridgeAction::ReadNext,
        ),
        BridgeEvent::Sent | BridgeEvent::EndOfStream | BridgeEvent::ReceiverDropped => (
            BridgeState::Closed,
            BridgeAction::Stop,
        ),
    }
}

impl BridgeState {
    /// Takes note of an event and says what to do.
    pub fn step<I>(&mut self, event: BridgeEvent<I>) -> (action: BridgeAction<I>)
        requires
            expects(*old(self), event),
        ensures
            (*final(self), action) == transition(*old(self), event),
    {
        let (next, action) = match event {
            BridgeEvent::Opened => (BridgeState::Reading, BridgeAction::ReadNext),
            BridgeEvent::OpenFailed(error) => (
                BridgeState::SendingOpenError,
                BridgeAction::Send(error),
            ),
            BridgeEvent::Item(item) => (BridgeState::Sending, BridgeAction::Send(item)),
            BridgeEvent::Sent => {
                if *self == BridgeState::Sending {
                    (BridgeState::Reading, BridgeAction::ReadNext)
                } else {
                    (BridgeState::Closed, BridgeAction::Stop)
                }
            },
            BridgeEvent::EndOfStream | BridgeEvent::ReceiverDropped => (
                BridgeState::Closed,
                BridgeAction::Stop,
            ),
        };
        *self = next;
        action
    }
}

/// What a reader does: it cannot be opened, or it yields these items and ends.
pub enum Reader<I> {
    Broken(I),
    Items(Seq<I>),
}

/// What a run of the forwarding task sends into the channel, from the state before `event` on,
/// where the reader still has `items` to yield and the receiver takes `accepts` more items before
/// it is dropped. Sending to a dropped receiver is the last thing that the task does.
pub open spec fn sent_from<I>(
    state: BridgeState,
    event: BridgeEvent<I>,
    items: Seq<I>,
    accepts: nat,
) -> Seq<I>
    decreases
            items.len(),
            (if event is Item || event is OpenFailed {
                2int
            } else if event is Opened || event is Sent {
                1int
            } else {
                0int
            }),
{
    let (next, action) = transition(state, event);
    match action {
        BridgeAction::Stop => seq![],
        BridgeAction::ReadNext => {
            if items.len() == 0 {
                sent_from(next, BridgeEvent::EndOfStream, items, accepts)
            } else {
                sent_from(next, BridgeEvent::Item(items[0]), items.skip(1), accepts)
            }
        },
        BridgeAction::Send(item) => {
            if accepts == 0 {
                seq![item] + sent_from(next, BridgeEvent::ReceiverDropped, items, 0)
            } else {
                seq![item] + sent_from(next, BridgeEvent::Sent, items, (accepts - 1) as nat)
            }
        },
    }
}

/// What a run of the forwarding task sends into the channel.
pub open spec fn sent<I>(reader: Reader<I>, accepts: nat) -> Seq<I> {
    match reader {
        Reader::Broken(error) => sent_from(
            BridgeState::Opening,
            BridgeEvent::OpenFailed(error),
            seq![],
            accepts,
        ),
        Reader::Items(items) => sent_from(BridgeState::Opening, BridgeEvent::Opened, items, accepts),
    }
}

proof fn lemma_sent_while_reading<I>(
    state: BridgeState,
    event: BridgeEvent<I>,
    items: Seq<I>,
    accepts: nat,
)
    requires
        state == BridgeState::Opening && event is Opened || state == BridgeState::Sending
            && event is Sent,
    ensures
        sent_from(state, event, items, accepts) == items.take(
            if accepts < items.len() {
                accepts as int + 1
            } else {
                items.len() as int
            },
        ),
    decreases items.len(),
{
    reveal_with_fuel(sent_from, 3);
    if items.len() == 0 {
        assert(items.take(0) =~= seq![]);
    } else {
        let rest = items.skip(1);
        if accepts == 0 {
            assert(seq![items[0]] + Seq::<I>::empty() =~= items.take(1));
        } else {
            lemma_sent_while_reading(
                BridgeState::Sending,
                BridgeEvent::Sent,
                rest,
                (accepts - 1) as nat,
            );
            let n = if accepts < items.len() {
                accepts as int + 1
            } else {
                items.len() as int
            };
            assert(seq![items[0]] + rest.take(n - 1) =~= items.take(n));
        }
    }
}

/// The consumer sees the items of the reader in order, from the first on and with none left out,
/// up to the one that it was dropped at; all of them if it stays. A reader that cannot be opened
/// is seen as its error alone.
pub proof fn lemma_bridge_forwards_in_order<I>(reader: Reader<I>, accepts: nat)
    ensures
        match reader {
            Reader::Broken(error) => sent(reader, accepts) == seq![error],
            Reader::Items(items) => {
                &&& accepts >= items.len() ==> sent(reader, accepts) == items
                &&& accepts < items.len() ==> sent(reader, accepts) == items.take(accepts as int + 1)
            },
        },
{
    match reader {
        Reader::Broken(error) => {
            reveal_with_fuel(sent_from, 3);
            assert(sent(reader, accepts) =~= seq![error]);
        },
        Reader::Items(items) => {
            lemma_sent_while_reading(BridgeState::Opening, BridgeEvent::Opened, items, accepts);
            assert(items.take(items.len() as int) =~= items);
        },
    }
}

/// Nothing but the end of the reader, a dropped receiver or a failed opening ends the task, and
/// once it has ended nothing can happen any more.
pub proof fn lemma_bridge_stops_only_at_an_end<I>(state: BridgeState, event: BridgeEvent<I>)
    requires
        expects(state, event),
    ensures
        ({
            let (next, action) = transition(state, event);
            &&& action is Stop <==> next == BridgeState::Closed
            &&& action is Stop <==> event is EndOfStream || event is ReceiverDropped || state
                == BridgeState::SendingOpenError
            &&& next == BridgeState::Closed ==> forall|e: BridgeEvent<I>| !expects(next, e)
        }),
{
}

} // verus!
