//! The decisions of the worker that owns the serial line: what to do with
//! each record that arrives and with each command that is to go out. The
//! worker itself, which reads, writes and sends, lives outside this crate
//! and carries out what is decided here.

use vstd::prelude::*;
use vstd::utf8::{decode_utf8, encode_utf8, valid_utf8};
use crate::encode::command_text;
use crate::error::{Error, SerialError};
use crate::framer::{is_record, leftover, records, records_view, LineFramer, NEWLINE};
use crate::text::{bytes_have_no_control, no_control_bytes};
use crate::message::message_of_text;
use crate::protocol::{Command, Message};
use crate::queue::CorrelationQueue;

verus! {

/// What the worker is to do with a record that arrived.
#[derive(Debug, PartialEq, Eq)]
pub enum Action<T> {
    /// Send the message to every subscriber; without one it is dropped.
    Publish(Message),
    /// Hand the outcome to the caller that waits at this destination.
    Deliver(T, Result<Message, Error>),
    /// Log the failure and go on: a record that does not decode, or a
    /// failure that the device reported while no caller was waiting.
    Report(Error),
    /// Do nothing: a reply that no caller waits for.
    Discard(Message),
}

/// What is done with a message, and who still waits afterwards. A heartbeat
/// or an event is published and the queue stays. Any other message goes to
/// the destination that has waited longest: a failure report as a command
/// error, the rest as the reply. Where none waits, a failure report is
/// reported as a device error and any other message discarded.
pub open spec fn route<T>(waiting: Seq<T>, m: Message) -> (Action<T>, Seq<T>) {
    match m {
        Message::Heartbeat(_) => (Action::Publish(m), waiting),
        Message::Event(_) => (Action::Publish(m), waiting),
        Message::Error(e) => if waiting.len() > 0 {
            (Action::Deliver(waiting[0], Err(Error::CommandError(e.error, e.msg))), waiting.skip(1))
        } else {
            (Action::Report(Error::DeviceError(e.error, e.msg)), waiting)
        },
        _ => if waiting.len() > 0 {
            (Action::Deliver(waiting[0], Ok(m)), waiting.skip(1))
        } else {
            (Action::Discard(m), waiting)
        },
    }
}

/// What is done with messages that arrive one after the other, and who still
/// waits after the last.
pub open spec fn route_all<T>(waiting: Seq<T>, arrived: Seq<Message>) -> (Seq<Action<T>>, Seq<T>)
    decreases arrived.len(),
{
    if arrived.len() == 0 {
        (Seq::empty(), waiting)
    } else {
        let (action, then_waiting) = route(waiting, arrived[0]);
        let (actions, at_last) = route_all(then_waiting, arrived.skip(1));
        (seq![action] + actions, at_last)
    }
}

/// Who waits after a command was taken in: its destination behind those
/// that waited before; a command without destination adds none.
pub open spec fn after_submit<T>(waiting: Seq<T>, reply_to: Option<T>) -> Seq<T> {
    match reply_to {
        Some(destination) => waiting.push(destination),
        None => waiting,
    }
}

/// Who waits after commands were taken in one after the other.
pub open spec fn submitted<T>(waiting: Seq<T>, reply_tos: Seq<Option<T>>) -> Seq<T>
    decreases reply_tos.len(),
{
    if reply_tos.len() == 0 {
        waiting
    } else {
        submitted(after_submit(waiting, reply_tos[0]), reply_tos.skip(1))
    }
}

/// What a caller gets for a message that answers its command: a failure
/// report as a command error, anything else as the reply.
pub open spec fn outcome_of(m: Message) -> Result<Message, Error> {
    match m {
        Message::Error(e) => Err(Error::CommandError(e.error, e.msg)),
        _ => Ok(m),
    }
}

/// The text of some bytes, where they are UTF-8.
pub open spec fn text_of(bytes: Seq<u8>) -> Option<Seq<char>> {
    if valid_utf8(bytes) {
        Some(decode_utf8(bytes))
    } else {
        None
    }
}

#[verifier::external_type_specification]
#[verifier::external_body]
pub struct ExFromUtf8Error(std::string::FromUtf8Error);

/// `String::from_utf8`: the text of the bytes where they are well-formed
/// UTF-8, an error where they are not.
#[verifier::external_body]
fn text_from_bytes(bytes: Vec<u8>) -> (r: Result<String, std::string::FromUtf8Error>)
    ensures
        match r {
            Ok(s) => text_of(bytes@) == Some(s@),
            Err(_) => text_of(bytes@) is None,
        },
{
    String::from_utf8(bytes)
}

/// Whether an action and the queue after it are what a record asks for,
/// given the queue before it. A record that is no UTF-8 is reported as a
/// read error and one that is no message as a parse error, and both leave
/// the queue alone; a message is routed.
pub open spec fn handles<T>(before: Seq<T>, record: Seq<u8>, action: Action<T>, after: Seq<T>) -> bool {
    match text_of(record) {
        None => {
            &&& after == before
            &&& action is Report
            &&& action->Report_0 is SerialError
            &&& action->Report_0->SerialError_0 is ErrorReading
            &&& action->Report_0->SerialError_0->ErrorReading_0@ == "Invalid String"@
        },
        Some(text) => match message_of_text(text) {
            Err(cause) => {
                &&& after == before
                &&& action is Report
                &&& action->Report_0 is ParseError
                &&& action->Report_0->ParseError_0@ == cause
            },
            Ok(view) => exists|m: Message| m@ == view && (action, after) == route(before, m),
        },
    }
}

/// What a read on the serial line came back with.
#[derive(Debug, PartialEq, Eq)]
pub enum ReadOutcome {
    /// Bytes arrived.
    Data(Vec<u8>),
    /// The timeout ran out and nothing arrived.
    TimedOut,
    /// The read failed, for the reason given.
    Failed(String),
}

/// What a look into the command channel found.
#[derive(Debug, PartialEq, Eq)]
pub enum Inbox<T> {
    /// A command, with the destination of its reply where the caller waits.
    Command(Command, Option<T>),
    /// Nothing, for now.
    Empty,
    /// Nothing, and nothing will come: every sender is gone.
    Closed,
}

/// What the worker does after a look into the command channel.
#[derive(Debug, PartialEq, Eq)]
pub enum Step {
    /// Write these bytes to the serial line and flush.
    Write(Vec<u8>),
    /// Go on with the next read.
    Idle,
    /// Leave the loop.
    Stop,
}

/// Whether the worker goes on or is about to leave its loop.
#[derive(Debug, Clone, Copy, PartialEq, Eq)]
pub enum EngineState {
    Running,
    Draining,
}

/// The state of the worker between two steps: the bytes of a record that has
/// not ended, and the destinations of the replies that are owed.
pub struct Engine<T> {
    pub framer: LineFramer,
    pub waiting: CorrelationQueue<T>,
    pub state: EngineState,
}

impl<T> Engine<T> {
    /// An engine that has read nothing and owes nothing.
    pub fn new() -> (e: Self)
        ensures
            e.framer@ == Seq::<u8>::empty(),
            e.waiting@ == Seq::<T>::empty(),
            e.state == EngineState::Running,
    {
        Engine {
            framer: LineFramer::new(),
            waiting: CorrelationQueue::new(),
            state: EngineState::Running,
        }
    }

    /// Takes the bytes of one read and returns the records that are now
    /// complete, all of them and in the order of arrival.
    pub fn receive(&mut self, chunk: &[u8]) -> (out: Vec<Vec<u8>>)
        ensures
            records_view(out@) == records(old(self).framer@ + chunk@),
            final(self).framer@ == leftover(old(self).framer@ + chunk@),
            final(self).waiting == old(self).waiting,
            final(self).state == old(self).state,
    {
        self.framer.feed(chunk)
    }

    /// Decides what is done with a message that arrived.
    pub fn dispatch(&mut self, m: Message) -> (action: Action<T>)
        ensures
            (action, final(self).waiting@) == route(old(self).waiting@, m),
            final(self).framer == old(self).framer,
            final(self).state == old(self).state,
    {
        match m {
            Message::Heartbeat(_) => Action::Publish(m),
            Message::Event(_) => Action::Publish(m),
            Message::Error(e) => match self.waiting.pop_oldest() {
                Some(destination) => Action::Deliver(
                    destination,
                    Err(Error::CommandError(e.error, e.msg)),
                ),
                None => Action::Report(Error::DeviceError(e.error, e.msg)),
            },
            _ => match self.waiting.pop_oldest() {
                Some(destination) => Action::Deliver(destination, Ok(m)),
                None => Action::Discard(m),
            },
        }
    }

    /// Decides what is done with messages that arrived one after the other.
    pub fn dispatch_all(&mut self, arrived: Vec<Message>) -> (actions: Vec<Action<T>>)
        ensures
            (actions@, final(self).waiting@) == route_all(old(self).waiting@, arrived@),
            final(self).framer == old(self).framer,
            final(self).state == old(self).state,
    {
        let mut arrived = arrived;
        let ghost all = arrived@;
        let mut actions: Vec<Action<T>> = Vec::new();
        proof {
            assert(actions@ + route_all(self.waiting@, arrived@).0 =~= route_all(
                self.waiting@,
                arrived@,
            ).0);
        }
        while arrived.len() > 0
            invariant
                route_all(old(self).waiting@, all) == (
                    actions@ + route_all(self.waiting@, arrived@).0,
                    route_all(self.waiting@, arrived@).1,
                ),
                self.framer == old(self).framer,
                self.state == old(self).state,
            decreases arrived.len(),
        {
            let ghost so_far = actions@;
            let ghost pending = arrived@;
            let m = arrived.remove(0);
            let action = self.dispatch(m);
            proof {
                assert(arrived@ =~= pending.skip(1));
                assert(so_far + (seq![action] + route_all(self.waiting@, arrived@).0)
                    =~= so_far.push(action) + route_all(self.waiting@, arrived@).0);
            }
            actions.push(action);
        }
        proof {
            assert(actions@ + Seq::<Action<T>>::empty() =~= actions@);
        }
        actions
    }

    /// Decides what is done with a record as the framer cut it. A record
    /// that is no UTF-8, no JSON or no message is reported and changes
    /// nothing; a message is routed.
    pub fn handle_record(&mut self, record: Vec<u8>) -> (action: Action<T>)
        ensures
            final(self).framer == old(self).framer,
            final(self).state == old(self).state,
            handles(old(self).waiting@, record@, action, final(self).waiting@),
    {
        match text_from_bytes(record) {
            Err(_) => Action::Report(
                Error::SerialError(SerialError::ErrorReading("Invalid String".to_owned())),
            ),
            Ok(text) => match Message::try_from(text.as_str()) {
                Err(e) => Action::Report(e),
                Ok(m) => self.dispatch(m),
            },
        }
    }

    /// Takes a command that is to go out. Its destination, where the caller
    /// waits for a reply, is queued behind all that wait; the bytes to write
    /// are the command's record and a newline, which is the only newline
    /// among them.
    pub fn submit(&mut self, command: &Command, reply_to: Option<T>) -> (bytes: Vec<u8>)
        ensures
            final(self).framer == old(self).framer,
            final(self).state == old(self).state,
            final(self).waiting@ == after_submit(old(self).waiting@, reply_to),
            bytes@ == encode_utf8(command_text(command@)).push(NEWLINE),
            is_record(bytes@),
    {
        if let Some(destination) = reply_to {
            self.waiting.push(destination);
        }
        let text = command.to_string();
        let mut bytes = text.as_str().as_bytes_vec();
        proof {
            bytes_have_no_control(text@);
            assert(no_control_bytes(bytes@));
        }
        bytes.push(NEWLINE);
        bytes
    }

    /// Takes what a read came back with and decides what is done. Bytes are
    /// cut into records, and every record that is now complete is handled,
    /// in the order of arrival. A timeout asks for nothing. A failed read is
    /// reported and the engine goes on running: a serial line may glitch and
    /// recover, so one failure does not end the loop.
    pub fn on_read(&mut self, outcome: ReadOutcome) -> (actions: Vec<Action<T>>)
        ensures
            final(self).state == old(self).state,
            match outcome {
                ReadOutcome::Data(chunk) => {
                    let cut = records(old(self).framer@ + chunk@);
                    &&& final(self).framer@ == leftover(old(self).framer@ + chunk@)
                    &&& actions@.len() == cut.len()
                    &&& exists|queues: Seq<Seq<T>>|
                        {
                            &&& queues.len() == cut.len() + 1
                            &&& queues[0] == old(self).waiting@
                            &&& queues[cut.len() as int] == final(self).waiting@
                            &&& forall|i: int|
                                0 <= i < cut.len() ==> handles(
                                    #[trigger] queues[i],
                                    cut[i],
                                    actions@[i],
                                    queues[i + 1],
                                )
                        }
                },
                ReadOutcome::TimedOut => actions@.len() == 0 && final(self).framer == old(
                    self,
                ).framer && final(self).waiting == old(self).waiting,
                ReadOutcome::Failed(words) => actions@ == seq![
                    Action::<T>::Report(Error::SerialError(SerialError::ErrorReading(words))),
                ] && final(self).framer == old(self).framer && final(self).waiting == old(
                    self,
                ).waiting,
            },
    {
        match outcome {
            ReadOutcome::TimedOut => Vec::new(),
            ReadOutcome::Failed(words) => {
                let mut actions: Vec<Action<T>> = Vec::new();
                actions.push(Action::Report(Error::SerialError(SerialError::ErrorReading(words))));
                actions
            },
            ReadOutcome::Data(chunk) => {
                let mut cut = self.receive(chunk.as_slice());
                let ghost all = records_view(cut@);
                let mut actions: Vec<Action<T>> = Vec::new();
                let ghost mut queues: Seq<Seq<T>> = seq![self.waiting@];
                while cut.len() > 0
                    invariant
                        cut@.len() + actions@.len() == all.len(),
                        forall|i: int|
                            0 <= i < cut@.len() ==> (#[trigger] cut@[i])@ == all[actions@.len() + i],
                        queues.len() == actions@.len() + 1,
                        queues[0] == old(self).waiting@,
                        queues[actions@.len() as int] == self.waiting@,
                        forall|i: int|
                            0 <= i < actions@.len() ==> handles(
                                #[trigger] queues[i],
                                all[i],
                                actions@[i],
                                queues[i + 1],
                            ),
                        self.framer@ == leftover(old(self).framer@ + chunk@),
                        self.state == old(self).state,
                    decreases cut.len(),
                {
                    let ghost pending = cut@;
                    let record = cut.remove(0);
                    assert(record@ == all[actions@.len() as int]);
                    assert forall|i: int| 0 <= i < cut@.len() implies (#[trigger] cut@[i])@
                        == all[actions@.len() + 1 + i] by {
                        assert(cut@[i] == pending[i + 1]);
                    }
                    let action = self.handle_record(record);
                    actions.push(action);
                    proof {
                        queues = queues.push(self.waiting@);
                    }
                }
                actions
            },
        }
    }

    /// Takes what a look into the command channel found and decides what is
    /// done. A command is taken in and its record is to be written; an empty
    /// channel asks for nothing; a closed one ends the loop, for no command
    /// can come any more.
    pub fn on_inbox(&mut self, inbox: Inbox<T>) -> (step: Step)
        ensures
            final(self).framer == old(self).framer,
            match inbox {
                Inbox::Command(command, reply_to) => {
                    &&& step is Write
                    &&& step->Write_0@ == encode_utf8(command_text(command@)).push(NEWLINE)
                    &&& is_record(step->Write_0@)
                    &&& final(self).waiting@ == after_submit(old(self).waiting@, reply_to)
                    &&& final(self).state == old(self).state
                },
                Inbox::Empty => step is Idle && final(self).waiting == old(self).waiting
                    && final(self).state == old(self).state,
                Inbox::Closed => step is Stop && final(self).waiting == old(self).waiting
                    && final(self).state == EngineState::Draining,
            },
    {
        match inbox {
            Inbox::Command(command, reply_to) => Step::Write(self.submit(&command, reply_to)),
            Inbox::Empty => Step::Idle,
            Inbox::Closed => {
                self.state = EngineState::Draining;
                Step::Stop
            },
        }
    }

    /// Gives up every destination that still waits, oldest first, once the
    /// worker is about to leave its loop. The worker abandons each of them,
    /// and the caller behind it gets a send error instead of waiting for
    /// ever.
    pub fn drain(&mut self) -> (abandoned: Vec<T>)
        ensures
            abandoned@ == old(self).waiting@,
            final(self).waiting@ == Seq::<T>::empty(),
            final(self).framer == old(self).framer,
            final(self).state == EngineState::Draining,
    {
        self.state = EngineState::Draining;
        self.waiting.take_all()
    }

    /// Takes back the destination that was queued last, after the write of
    /// its command failed: the worker drops it, so that the caller sees its
    /// reply channel closed instead of waiting for a reply that cannot come.
    /// `queued` says whether the command had a destination at all.
    pub fn write_failed(&mut self, queued: bool) -> (r: Option<T>)
        ensures
            final(self).framer == old(self).framer,
            final(self).state == old(self).state,
            queued && old(self).waiting@.len() > 0 ==> r == Some(old(self).waiting@.last())
                && final(self).waiting@ == old(self).waiting@.drop_last(),
            !(queued && old(self).waiting@.len() > 0) ==> r is None && final(self).waiting@ == old(
                self,
            ).waiting@,
    {
        if queued {
            self.waiting.pop_newest()
        } else {
            None
        }
    }
}

/// Replies are delivered in the order the commands were sent. Where every
/// message that arrives is a reply (no heartbeat, no event) and no more
/// arrive than destinations wait, the reply at each place goes to the
/// destination at the same place, and those behind keep waiting.
pub proof fn replies_in_send_order<T>(waiting: Seq<T>, arrived: Seq<Message>)
    requires
        arrived.len() <= waiting.len(),
        forall|i: int| 0 <= i < arrived.len() ==> !(#[trigger] arrived[i]).spec_is_unsolicited(),
    ensures
        route_all(waiting, arrived).0.len() == arrived.len(),
        forall|i: int|
            0 <= i < arrived.len() ==> #[trigger] route_all(waiting, arrived).0[i]
                == Action::Deliver(waiting[i], outcome_of(arrived[i])),
        route_all(waiting, arrived).1 == waiting.skip(arrived.len() as int),
    decreases arrived.len(),
{
    if arrived.len() == 0 {
        assert(waiting.skip(0) =~= waiting);
    } else {
        let first = arrived[0];
        assert(!first.spec_is_unsolicited());
        let (action, then_waiting) = route(waiting, first);
        assert(action == Action::Deliver(waiting[0], outcome_of(first)));
        assert(then_waiting == waiting.skip(1));
        let rest = arrived.skip(1);
        assert forall|i: int| 0 <= i < rest.len() implies !(#[trigger] rest[i]).spec_is_unsolicited() by {
            assert(rest[i] == arrived[i + 1]);
        }
        replies_in_send_order(then_waiting, rest);
        let (actions, at_last) = route_all(then_waiting, rest);
        assert(route_all(waiting, arrived).0 == seq![action] + actions);
        assert forall|i: int| 0 <= i < arrived.len() implies #[trigger] route_all(
            waiting,
            arrived,
        ).0[i] == Action::Deliver(waiting[i], outcome_of(arrived[i])) by {
            if i > 0 {
                assert((seq![action] + actions)[i] == actions[i - 1]);
                assert(rest[i - 1] == arrived[i]);
                assert(then_waiting[i - 1] == waiting[i]);
            }
        }
        assert(then_waiting.skip(rest.len() as int) =~= waiting.skip(arrived.len() as int));
    }
}

/// Where every command has a destination, they wait in the order of the
/// commands, behind those that waited before.
pub proof fn destinations_queue_in_send_order<T>(waiting: Seq<T>, reply_tos: Seq<Option<T>>)
    requires
        forall|i: int| 0 <= i < reply_tos.len() ==> (#[trigger] reply_tos[i]) is Some,
    ensures
        submitted(waiting, reply_tos) == waiting + Seq::new(
            reply_tos.len(),
            |i: int| reply_tos[i]->0,
        ),
    decreases reply_tos.len(),
{
    let added = Seq::new(reply_tos.len(), |i: int| reply_tos[i]->0);
    if reply_tos.len() == 0 {
        assert(waiting + added =~= waiting);
    } else {
        let rest = reply_tos.skip(1);
        assert(reply_tos[0] is Some);
        assert forall|i: int| 0 <= i < rest.len() implies (#[trigger] rest[i]) is Some by {
            assert(rest[i] == reply_tos[i + 1]);
        }
        let then_waiting = waiting.push(reply_tos[0]->0);
        destinations_queue_in_send_order(then_waiting, rest);
        assert(then_waiting + Seq::new(rest.len(), |i: int| rest[i]->0) =~= waiting + added);
    }
}

/// Commands that are all sent before any reply arrives, each with a
/// destination, and then as many replies as commands: the reply at each
/// place goes to the destination of the command at the same place, and
/// nobody waits afterwards.
pub proof fn replies_match_commands<T>(reply_tos: Seq<Option<T>>, arrived: Seq<Message>)
    requires
        forall|i: int| 0 <= i < reply_tos.len() ==> (#[trigger] reply_tos[i]) is Some,
        arrived.len() == reply_tos.len(),
        forall|i: int| 0 <= i < arrived.len() ==> !(#[trigger] arrived[i]).spec_is_unsolicited(),
    ensures
        route_all(submitted(Seq::empty(), reply_tos), arrived).0.len() == arrived.len(),
        forall|i: int|
            0 <= i < arrived.len() ==> #[trigger] route_all(
                submitted(Seq::empty(), reply_tos),
                arrived,
            ).0[i] == Action::Deliver(reply_tos[i]->0, outcome_of(arrived[i])),
        route_all(submitted(Seq::empty(), reply_tos), arrived).1 == Seq::<T>::empty(),
{
    let waiting = submitted(Seq::<T>::empty(), reply_tos);
    destinations_queue_in_send_order(Seq::<T>::empty(), reply_tos);
    assert(waiting =~= Seq::new(reply_tos.len(), |i: int| reply_tos[i]->0));
    replies_in_send_order(waiting, arrived);
    assert(waiting.skip(arrived.len() as int) =~= Seq::<T>::empty());
}

/// A reply that arrives while nobody waits is dropped and leaves no trace:
/// a destination queued afterwards gets the reply that arrives after that.
pub proof fn stray_reply_leaves_no_trace<T>(stray: Message, destination: T, reply: Message)
    requires
        !stray.spec_is_unsolicited(),
        !reply.spec_is_unsolicited(),
    ensures
        route(Seq::<T>::empty(), stray).1 == Seq::<T>::empty(),
        !(route(Seq::<T>::empty(), stray).0 is Deliver),
        !(route(Seq::<T>::empty(), stray).0 is Publish),
        route(route(Seq::<T>::empty(), stray).1.push(destination), reply).0 == Action::Deliver(
            destination,
            outcome_of(reply),
        ),
{
}

/// A heartbeat or an event is published and leaves the queue as it is.
pub proof fn unsolicited_is_published<T>(waiting: Seq<T>, m: Message)
    requires
        m.spec_is_unsolicited(),
    ensures
        route(waiting, m) == (Action::<T>::Publish(m), waiting),
{
}

} // verus!
