//! The state machine that consumes a server-sent event stream of response chunks.
//!
//! The application layer reads events from the connection, hands each to `on_event`,
//! parses the chunks that the driver asks it to decode, and forwards items to the
//! consumer; the driver decides what each event means and when the stream ends.
use crate::error::DeepSeekError;
use vstd::prelude::*;

verus! {

/// An event read from the connection.
pub enum SseEvent {
    /// The connection opened.
    Open,
    /// A message with its data field.
    Message(String),
    /// The connection failed; the failure's text.
    Failure(String),
}

/// What the application layer does next.
pub enum SseAction {
    /// Read the next event.
    Continue,
    /// Parse this data as a chunk and hand the outcome to `on_decoded`.
    Decode(String),
    /// Deliver this error to the consumer; the stream has ended.
    Fail(DeepSeekError),
    /// The stream has ended; deliver nothing more.
    Stop,
}

/// The data of the message that ends a stream.
pub open spec fn is_done_marker(data: Seq<char>) -> bool {
    data == "[DONE]"@
}

/// What an event means to a driver, finished or not.
pub enum EventEffect {
    /// Nothing to deliver; read on.
    Skip,
    /// A chunk to decode.
    Decode,
    /// The stream ends with nothing more delivered.
    End,
    /// The stream ends with a decode error delivered.
    Fail,
}

/// The meaning of `event` to a driver: a finished stream ends; an open event is skipped;
/// the `[DONE]` message ends the stream; another message is a chunk; a connection failure
/// ends the stream with an error.
pub open spec fn event_effect(finished: bool, event: SseEvent) -> EventEffect {
    if finished {
        EventEffect::End
    } else {
        match event {
            SseEvent::Open => EventEffect::Skip,
            SseEvent::Message(data) => if is_done_marker(data@) {
                EventEffect::End
            } else {
                EventEffect::Decode
            },
            SseEvent::Failure(_) => EventEffect::Fail,
        }
    }
}

/// An item delivered to the consumer, by its content: a chunk, or a decode error with
/// its message and its body.
pub enum DeliveredItem<T> {
    Chunk(T),
    Error { message: Seq<char>, body: Seq<char> },
}

/// The item that decoding the data of a message gives.
pub open spec fn decoded_item<T>(decoded: Result<T, String>, data: Seq<char>) -> DeliveredItem<T> {
    match decoded {
        Ok(chunk) => DeliveredItem::Chunk(chunk),
        Err(message) => DeliveredItem::Error { message: message@, body: data },
    }
}

/// The text of a connection failure, none for the other events.
pub open spec fn failure_text(event: SseEvent) -> Seq<char> {
    match event {
        SseEvent::Failure(text) => text@,
        _ => Seq::empty(),
    }
}

/// The data of a message, none for the other events.
pub open spec fn message_data(event: SseEvent) -> Seq<char> {
    match event {
        SseEvent::Message(data) => data@,
        _ => Seq::empty(),
    }
}

/// One event of a stream together with what parsing its data gives, when it is a chunk
/// to decode, and whether the consumer takes the chunk, when one is offered.
pub struct StreamInput<T> {
    pub event: SseEvent,
    pub decoded: Result<T, String>,
    pub taken: bool,
}

/// One step of a driver in state `finished` on an input: the items it offers the consumer
/// and whether the stream has ended after it.
pub open spec fn step<T>(finished: bool, input: StreamInput<T>) -> (Seq<DeliveredItem<T>>, bool) {
    match event_effect(finished, input.event) {
        EventEffect::Skip => (Seq::empty(), finished),
        EventEffect::End => (Seq::empty(), true),
        EventEffect::Fail => (
            seq![DeliveredItem::Error { message: failure_text(input.event), body: Seq::empty() }],
            true,
        ),
        EventEffect::Decode => {
            let item = decoded_item(input.decoded, message_data(input.event));
            (seq![item], !(item is Chunk) || !input.taken)
        },
    }
}

/// The items that a driver in state `finished` offers the consumer for the inputs, read
/// in order: the steps folded over the inputs.
pub open spec fn delivered<T>(finished: bool, inputs: Seq<StreamInput<T>>) -> Seq<
    DeliveredItem<T>,
>
    decreases inputs.len(),
{
    if inputs.len() == 0 {
        Seq::empty()
    } else {
        step(finished, inputs[0]).0 + delivered(step(finished, inputs[0]).1, inputs.drop_first())
    }
}

/// What the consumer receives of an item, by its content.
pub open spec fn item_content<T>(item: Result<T, DeepSeekError>) -> DeliveredItem<T> {
    match item {
        Ok(chunk) => DeliveredItem::Chunk(chunk),
        Err(DeepSeekError::Decode { message, body: Some(b) }) => DeliveredItem::Error {
            message: message@,
            body: b@,
        },
        Err(DeepSeekError::Decode { message, body: None }) => DeliveredItem::Error {
            message: message@,
            body: Seq::empty(),
        },
        Err(_) => DeliveredItem::Error { message: Seq::empty(), body: Seq::empty() },
    }
}

/// What `on_event` does: the action it answers for `event` in state `finished`, and the
/// state `next` it leaves.
pub open spec fn event_transition(
    finished: bool,
    event: SseEvent,
    action: SseAction,
    next: bool,
) -> bool {
    match event_effect(finished, event) {
        EventEffect::Skip => action is Continue && next == finished,
        EventEffect::End => action is Stop && next,
        EventEffect::Fail => next && (action matches SseAction::Fail(e) && e is Decode
            && item_content(Err::<(), DeepSeekError>(e)) == DeliveredItem::<()>::Error {
            message: failure_text(event),
            body: Seq::empty(),
        }),
        EventEffect::Decode => next == finished && (action matches SseAction::Decode(data)
            && event == SseEvent::Message(data)),
    }
}

/// What `on_decoded` does: the item it offers for a decoded chunk and the state `next`
/// it leaves.
pub open spec fn decoded_transition<T>(
    decoded: Result<T, String>,
    data: Seq<char>,
    item: Result<T, DeepSeekError>,
    next: bool,
) -> bool {
    &&& item_content(item) == decoded_item(decoded, data)
    &&& next == decoded is Err
}

/// The items the application layer offers for an input, given the action `on_event`
/// answered and the item `on_decoded` gave.
pub open spec fn offered<T>(action: SseAction, item: Result<T, DeepSeekError>) -> Seq<
    DeliveredItem<T>,
> {
    match action {
        SseAction::Fail(e) => seq![item_content(Err::<T, DeepSeekError>(e))],
        SseAction::Decode(_) => seq![item_content(item)],
        _ => Seq::empty(),
    }
}

/// The driver's methods, called as a stream loop calls them on one input (`on_event`;
/// after a decode action `on_decoded`, then `on_delivered` with whether the consumer
/// took the item), offer the items of `step` and leave its state. Folding them over a
/// stream therefore offers `delivered`.
pub proof fn lemma_driver_calls_perform_step<T>(
    finished: bool,
    input: StreamInput<T>,
    action: SseAction,
    after_event: bool,
    item: Result<T, DeepSeekError>,
    after_decode: bool,
    after_delivery: bool,
)
    requires
        event_transition(finished, input.event, action, after_event),
        action is Decode ==> decoded_transition(
            input.decoded,
            message_data(input.event),
            item,
            after_decode,
        ),
        action is Decode ==> after_delivery == (after_decode || !input.taken),
    ensures
        step(finished, input) == (
            offered(action, item),
            if action is Decode {
                after_delivery
            } else {
                after_event
            },
        ),
{
    match event_effect(finished, input.event) {
        EventEffect::Fail => {
            if let SseAction::Fail(e) = action {
                assert(item_content(Err::<T, DeepSeekError>(e)) == DeliveredItem::<T>::Error {
                    message: failure_text(input.event),
                    body: Seq::empty(),
                });
            }
            assert(offered(action, item) =~= step(finished, input).0);
        },
        _ => {
            assert(offered(action, item) =~= step(finished, input).0);
        },
    }
}

/// The items offered by a run of calls, from input `i` on.
pub open spec fn offered_from<T>(
    actions: Seq<SseAction>,
    items: Seq<Result<T, DeepSeekError>>,
    i: int,
) -> Seq<DeliveredItem<T>>
    decreases actions.len() - i,
{
    if i < 0 || i >= actions.len() {
        Seq::empty()
    } else {
        offered(actions[i], items[i]) + offered_from(actions, items, i + 1)
    }
}

/// A whole stream loop: when, for each input in turn, the driver's methods are called as
/// `lemma_driver_calls_perform_step` describes, starting in state `states[i]` and leaving
/// `states[i + 1]`, the items offered from input `i` on are `delivered` from that state on
/// the remaining inputs. With `lemma_stream_delivers_chunks_then_at_most_one_error`, the
/// loop offers chunks in order until `[DONE]` or the first failure, then at most one error,
/// then nothing.
pub proof fn lemma_driver_run_offers_delivered<T>(
    inputs: Seq<StreamInput<T>>,
    actions: Seq<SseAction>,
    items: Seq<Result<T, DeepSeekError>>,
    states: Seq<bool>,
    after_events: Seq<bool>,
    after_decodes: Seq<bool>,
    i: int,
)
    requires
        actions.len() == inputs.len(),
        items.len() == inputs.len(),
        after_events.len() == inputs.len(),
        after_decodes.len() == inputs.len(),
        states.len() == inputs.len() + 1,
        0 <= i <= inputs.len(),
        forall|j: int|
            i <= j < inputs.len() ==> {
                &&& event_transition(
                    states[j],
                    inputs[j].event,
                    #[trigger] actions[j],
                    after_events[j],
                )
                &&& actions[j] is Decode ==> decoded_transition(
                    inputs[j].decoded,
                    message_data(inputs[j].event),
                    items[j],
                    after_decodes[j],
                )
                &&& states[j + 1] == if actions[j] is Decode {
                    after_decodes[j] || !inputs[j].taken
                } else {
                    after_events[j]
                }
            },
    ensures
        offered_from(actions, items, i) == delivered(states[i], inputs.skip(i)),
    decreases inputs.len() - i,
{
    if i < inputs.len() {
        let _ = actions[i];
        lemma_driver_calls_perform_step(
            states[i],
            inputs[i],
            actions[i],
            after_events[i],
            items[i],
            after_decodes[i],
            if actions[i] is Decode {
                after_decodes[i] || !inputs[i].taken
            } else {
                after_events[i]
            },
        );
        lemma_driver_run_offers_delivered(
            inputs,
            actions,
            items,
            states,
            after_events,
            after_decodes,
            i + 1,
        );
        assert(inputs.skip(i)[0] == inputs[i]);
        assert(inputs.skip(i).drop_first() =~= inputs.skip(i + 1));
    } else {
        assert(inputs.skip(i).len() == 0);
    }
}

/// A finished stream delivers nothing more, whatever events follow.
pub proof fn lemma_finished_stream_delivers_nothing<T>(inputs: Seq<StreamInput<T>>)
    ensures
        delivered(true, inputs) == Seq::<DeliveredItem<T>>::empty(),
    decreases inputs.len(),
{
    if inputs.len() > 0 {
        lemma_finished_stream_delivers_nothing(inputs.drop_first());
    }
}

/// The shape of every stream: the chunks arrive in order, at most one error is offered
/// and nothing follows it, and nothing after the `[DONE]` message is offered.
pub proof fn lemma_stream_delivers_chunks_then_at_most_one_error<T>(
    finished: bool,
    inputs: Seq<StreamInput<T>>,
    done_at: int,
)
    requires
        0 <= done_at < inputs.len() ==> (inputs[done_at].event matches SseEvent::Message(data)
            && is_done_marker(data@)),
    ensures
        forall|i: int|
            0 <= i < delivered(finished, inputs).len() - 1 ==> #[trigger] delivered(
                finished,
                inputs,
            )[i] is Chunk,
        0 <= done_at < inputs.len() ==> delivered(finished, inputs) == delivered(
            finished,
            inputs.take(done_at),
        ),
    decreases inputs.len(),
{
    if inputs.len() > 0 {
        let rest = inputs.drop_first();
        let input = inputs[0];
        let items = step(finished, input).0;
        let next = step(finished, input).1;
        lemma_finished_stream_delivers_nothing(rest);
        if done_at > 0 {
            assert(0 <= done_at < inputs.len() ==> rest[done_at - 1] == inputs[done_at]);
        }
        lemma_stream_delivers_chunks_then_at_most_one_error(next, rest, done_at - 1);
        if 0 <= done_at < inputs.len() {
            let prefix = inputs.take(done_at);
            if done_at == 0 {
                assert(prefix.len() == 0);
                assert(items.len() == 0 && next);
            } else {
                assert(prefix[0] == input);
                assert(prefix.drop_first() =~= rest.take(done_at - 1));
            }
        }
        let out = delivered(finished, inputs);
        let tail = delivered(next, rest);
        assert(out == items + tail);
        assert forall|i: int| 0 <= i < out.len() - 1 implies #[trigger] out[i] is Chunk by {
            if items.len() == 1 {
                if i == 0 {
                    if !(items[0] is Chunk) {
                        assert(next);
                        assert(tail.len() == 0);
                    }
                } else {
                    assert(out[i] == tail[i - 1]);
                }
            } else {
                assert(out[i] == tail[i]);
            }
        }
    }
}

/// Consumer of a stream of chunks; once finished it stays finished.
pub struct SseDriver {
    pub finished: bool,
}

impl SseDriver {
    /// A driver at the start of a stream.
    pub fn new() -> (res: SseDriver)
        ensures
            !res.finished,
    {
        SseDriver { finished: false }
    }

    /// Whether the stream has ended.
    pub fn is_finished(&self) -> (res: bool)
        ensures
            res == self.finished,
    {
        self.finished
    }

    /// Decide what an event means (see `event_effect`). A chunk is handed back for
    /// decoding; a connection failure becomes a decode error with an empty body.
    pub fn on_event(&mut self, event: SseEvent) -> (action: SseAction)
        ensures
            event_transition(old(self).finished, event, action, final(self).finished),
            old(self).finished ==> action is Stop && final(self).finished,
            !old(self).finished && event is Open ==> action is Continue && !final(self).finished,
            !old(self).finished ==> (event matches SseEvent::Message(d) ==> (if d@ == "[DONE]"@ {
                action is Stop && final(self).finished
            } else {
                action == SseAction::Decode(d) && !final(self).finished
            })),
            !old(self).finished ==> (event matches SseEvent::Failure(t) ==> (final(self).finished
                && (action matches SseAction::Fail(DeepSeekError::Decode { message, body: Some(b) })
                && message == t && b@ == Seq::<char>::empty()))),
            final(self).finished == (old(self).finished || event_effect(old(self).finished, event)
                is End || event_effect(old(self).finished, event) is Fail),
            match event_effect(old(self).finished, event) {
                EventEffect::Skip => action is Continue,
                EventEffect::Decode => action matches SseAction::Decode(data) && data@
                    == message_data(event) && event == SseEvent::Message(data),
                EventEffect::End => action is Stop,
                EventEffect::Fail => action matches SseAction::Fail(
                    DeepSeekError::Decode { message, body: Some(b) },
                ) && message@ == failure_text(event) && event == SseEvent::Failure(message) && b@
                    == Seq::<char>::empty(),
            },
    {
        if self.finished {
            return SseAction::Stop;
        }
        match event {
            SseEvent::Open => SseAction::Continue,
            SseEvent::Message(data) => {
                if data == String::from_str("[DONE]") {
                    self.finished = true;
                    SseAction::Stop
                } else {
                    SseAction::Decode(data)
                }
            },
            SseEvent::Failure(text) => {
                self.finished = true;
                SseAction::Fail(DeepSeekError::decode_empty_body(text))
            },
        }
    }

    /// The item that a decoded chunk becomes (see `decoded_item`): the chunk itself, or a
    /// decode error that keeps the raw data and ends the stream.
    pub fn on_decoded<T>(&mut self, decoded: Result<T, String>, data: String) -> (item: Result<
        T,
        DeepSeekError,
    >)
        requires
            !old(self).finished,
        ensures
            decoded_transition(decoded, data@, item, final(self).finished),
            match decoded {
                Ok(chunk) => item == Ok::<T, DeepSeekError>(chunk) && !final(self).finished,
                Err(message) => item == Err::<T, DeepSeekError>(
                    DeepSeekError::Decode { message, body: Some(data) },
                ) && final(self).finished,
            },
            match decoded_item(decoded, data@) {
                DeliveredItem::Chunk(chunk) => item == Ok::<T, DeepSeekError>(chunk),
                DeliveredItem::Error { message, body } => item matches Err(
                    DeepSeekError::Decode { message: m, body: Some(b) },
                ) && m@ == message && b@ == body,
            },
    {
        match decoded {
            Ok(chunk) => Ok(chunk),
            Err(message) => {
                self.finished = true;
                Err(DeepSeekError::decode(message, data))
            },
        }
    }

    /// Record whether the consumer took the last chunk; a consumer that has gone away
    /// ends the stream.
    pub fn on_delivered(&mut self, delivered: bool)
        ensures
            final(self).finished == (old(self).finished || !delivered),
    {
        if !delivered {
            self.finished = true;
        }
    }
}

} // verus!
