//! One exchange with the device, as a state machine.
//!
//! An exchange is one command byte written and one two-byte response read,
//! in that order. The machine never touches the bus: its state says which bus
//! step is due, the caller performs that step on a transport of its own and
//! reports the outcome as an event, and the machine answers with the next
//! state. A failed step ends the exchange with the transport's error,
//! unchanged; nothing is retried.

use vstd::prelude::*;

use crate::wire::{decode_response, Measurement};

verus! {

/// A step on the bus that an exchange asks its caller to perform.
#[derive(Clone, Copy, Debug, PartialEq, Eq, Structural)]
pub enum BusStep {
    /// Write this single byte to the device.
    Write(u8),
    /// Read exactly two bytes from the device.
    Read,
}

/// The outcome of a bus step, as the caller reports it. `E` is the
/// transport's own error type, which the driver only passes through.
#[derive(Debug, PartialEq, Eq)]
pub enum Event<E> {
    /// The write of the command byte has returned.
    Written(Result<(), E>),
    /// The read of the response has returned, with the two bytes if it
    /// succeeded.
    Received(Result<[u8; 2], E>),
}

/// The state of an exchange, named after what is due next.
#[derive(Debug, PartialEq, Eq)]
pub enum Exchange<E> {
    /// The command byte of the measurement is to be written.
    Write(Measurement),
    /// The command byte was written; the response is to be read.
    Read(Measurement),
    /// The exchange is over: with the calibrated value in units, or with the
    /// error of the bus step that failed.
    Done(Result<i32, E>),
}

impl<E> Exchange<E> {
    /// The state in which every exchange starts.
    pub open spec fn initial(measurement: Measurement) -> Exchange<E> {
        Exchange::Write(measurement)
    }

    /// The bus step that is due in this state, if any.
    pub open spec fn request_of(self) -> Option<BusStep> {
        match self {
            Exchange::Write(measurement) => Some(BusStep::Write(measurement.command_byte())),
            Exchange::Read(_) => Some(BusStep::Read),
            Exchange::Done(_) => None,
        }
    }

    /// Whether an event reports the bus step that is due in this state.
    pub open spec fn answers(self, event: Event<E>) -> bool {
        match (self, event) {
            (Exchange::Write(_), Event::Written(_)) => true,
            (Exchange::Read(_), Event::Received(_)) => true,
            _ => false,
        }
    }

    /// The transition function. An event that reports the step that is due
    /// moves the exchange on; any other event leaves it as it is.
    pub open spec fn next(self, event: Event<E>) -> Exchange<E> {
        match (self, event) {
            (Exchange::Write(measurement), Event::Written(Ok(_))) => Exchange::Read(measurement),
            (Exchange::Write(_), Event::Written(Err(error))) => Exchange::Done(Err(error)),
            (Exchange::Read(measurement), Event::Received(Ok(response))) => Exchange::Done(
                Ok(measurement.reading(response) as i32),
            ),
            (Exchange::Read(_), Event::Received(Err(error))) => Exchange::Done(Err(error)),
            (state, _) => state,
        }
    }

    /// The state after a sequence of events, taken in order.
    pub open spec fn run(self, events: Seq<Event<E>>) -> Exchange<E>
        decreases events.len(),
    {
        if events.len() == 0 {
            self
        } else {
            self.next(events[0]).run(events.drop_first())
        }
    }

    /// The bus steps that a sequence of events reports, in order: each event
    /// that answers the step due at its turn reports that step as performed.
    pub open spec fn performed(self, events: Seq<Event<E>>) -> Seq<BusStep>
        decreases events.len(),
    {
        if events.len() == 0 {
            Seq::empty()
        } else {
            let later = self.next(events[0]).performed(events.drop_first());
            if self.answers(events[0]) {
                seq![self.request_of().unwrap()] + later
            } else {
                later
            }
        }
    }

    /// Starts an exchange for a measurement. Nothing has touched the bus yet:
    /// the write of the measurement's command byte is due.
    pub fn begin(measurement: Measurement) -> (exchange: Exchange<E>)
        ensures
            exchange == Self::initial(measurement),
            exchange.request_of() == Some(BusStep::Write(measurement.command_byte())),
    {
        Exchange::Write(measurement)
    }

    /// The bus step that the caller is to perform next, or `None` when the
    /// exchange is over.
    pub fn request(&self) -> (step: Option<BusStep>)
        ensures
            step == self.request_of(),
    {
        match self {
            Exchange::Write(measurement) => Some(BusStep::Write(measurement.command())),
            Exchange::Read(_) => Some(BusStep::Read),
            Exchange::Done(_) => None,
        }
    }

    /// Takes the outcome of a bus step and gives the state that follows.
    pub fn step(self, event: Event<E>) -> (after: Exchange<E>)
        ensures
            after == self.next(event),
            self is Done ==> after == self,
            !self.answers(event) ==> after == self,
    {
        match (self, event) {
            (Exchange::Write(measurement), Event::Written(Ok(_))) => Exchange::Read(measurement),
            (Exchange::Write(_), Event::Written(Err(error))) => Exchange::Done(Err(error)),
            (Exchange::Read(measurement), Event::Received(Ok(response))) => {
                let raw: u16 = decode_response(response);
                Exchange::Done(Ok(measurement.calibrate(raw)))
            },
            (Exchange::Read(_), Event::Received(Err(error))) => Exchange::Done(Err(error)),
            (state, _) => state,
        }
    }
}

/// The calibrated value of every response fits the `i32` in which a finished
/// exchange carries it, so the finished state holds that value exactly.
pub proof fn lemma_reading_is_exact<E>(measurement: Measurement, response: [u8; 2])
    ensures
        i32::MIN <= measurement.reading(response) <= i32::MAX,
        Exchange::<E>::Read(measurement).next(Event::Received(Ok(response))) matches Exchange::Done(
            Ok(units),
        ) && units == measurement.reading(response),
{
}

/// A finished exchange stays as it is, whatever is reported to it, and no
/// further bus step is performed.
pub proof fn lemma_done_is_final<E>(result: Result<i32, E>, events: Seq<Event<E>>)
    ensures
        Exchange::Done(result).run(events) == Exchange::Done(result),
        Exchange::Done(result).performed(events) == Seq::<BusStep>::empty(),
    decreases events.len(),
{
    if events.len() > 0 {
        lemma_done_is_final(result, events.drop_first());
    }
}

/// Once the command byte is written, the only bus step ever performed is the
/// one read of the response, and it is performed exactly when the exchange
/// has finished.
pub proof fn lemma_one_read<E>(measurement: Measurement, events: Seq<Event<E>>)
    ensures
        ({
            let state = Exchange::<E>::Read(measurement);
            let after = state.run(events);
            let steps = state.performed(events);
            if after is Done {
                steps == seq![BusStep::Read]
            } else {
                after == state && steps == Seq::<BusStep>::empty()
            }
        }),
    decreases events.len(),
{
    if events.len() > 0 {
        let state = Exchange::<E>::Read(measurement);
        let later = events.drop_first();
        match state.next(events[0]) {
            Exchange::Done(result) => {
                lemma_done_is_final(result, later);
                assert(seq![BusStep::Read] + Seq::<BusStep>::empty() =~= seq![BusStep::Read]);
            },
            _ => {
                lemma_one_read(measurement, later);
            },
        }
    }
}

/// Every exchange is one write of the measurement's command byte followed by
/// one read of the response. Whatever events are reported, in whatever
/// order: nothing is performed before the write, the read comes only after
/// the write, neither is performed twice, and an exchange that has finished
/// with a value has performed both.
pub proof fn lemma_one_write_then_one_read<E>(measurement: Measurement, events: Seq<Event<E>>)
    ensures
        ({
            let write = BusStep::Write(measurement.command_byte());
            let after = Exchange::<E>::initial(measurement).run(events);
            let steps = Exchange::<E>::initial(measurement).performed(events);
            match after {
                Exchange::Write(_) => steps == Seq::<BusStep>::empty(),
                Exchange::Read(_) => steps == seq![write],
                Exchange::Done(Ok(_)) => steps == seq![write, BusStep::Read],
                Exchange::Done(Err(_)) => steps == seq![write] || steps == seq![
                    write,
                    BusStep::Read,
                ],
            }
        }),
    decreases events.len(),
{
    if events.len() > 0 {
        let write = BusStep::Write(measurement.command_byte());
        let state = Exchange::<E>::initial(measurement);
        let later = events.drop_first();
        match state.next(events[0]) {
            Exchange::Write(_) => {
                lemma_one_write_then_one_read(measurement, later);
            },
            Exchange::Read(_) => {
                lemma_one_read(measurement, later);
                assert(seq![write] + Seq::<BusStep>::empty() =~= seq![write]);
                assert(seq![write] + seq![BusStep::Read] =~= seq![write, BusStep::Read]);
            },
            Exchange::Done(result) => {
                lemma_done_is_final(result, later);
                assert(seq![write] + Seq::<BusStep>::empty() =~= seq![write]);
            },
        }
    }
}

/// When the write and the read both succeed, the exchange writes the
/// measurement's command byte, then reads the response, and finishes with the
/// calibrated value of the response, whatever is reported afterwards.
pub proof fn lemma_exchange_completes<E>(
    measurement: Measurement,
    response: [u8; 2],
    afterwards: Seq<Event<E>>,
)
    ensures
        ({
            let events = seq![Event::Written(Ok(())), Event::Received(Ok(response))] + afterwards;
            let start = Exchange::<E>::initial(measurement);
            &&& start.run(events) matches Exchange::Done(Ok(units)) && units
                == measurement.reading(response)
            &&& start.performed(events) == seq![
                BusStep::Write(measurement.command_byte()),
                BusStep::Read,
            ]
        }),
{
    let events = seq![Event::<E>::Written(Ok(())), Event::Received(Ok(response))] + afterwards;
    let reads = seq![Event::<E>::Received(Ok(response))] + afterwards;
    let start = Exchange::<E>::initial(measurement);
    let reading = measurement.reading(response);
    assert(events.drop_first() =~= reads);
    assert(reads.drop_first() =~= afterwards);
    lemma_reading_is_exact::<E>(measurement, response);
    lemma_done_is_final::<E>(Ok(reading as i32), afterwards);
    assert(Exchange::<E>::Read(measurement).run(reads) == Exchange::<E>::Done(
        Ok(reading as i32),
    ));
    assert(start.run(events) == Exchange::<E>::Read(measurement).run(reads));
    lemma_one_write_then_one_read(measurement, events);
}

/// When the write fails, the exchange finishes with that failure and the
/// write is the only bus step performed: the response is never read,
/// whatever is reported afterwards.
pub proof fn lemma_failed_write_ends_exchange<E>(
    measurement: Measurement,
    failure: E,
    afterwards: Seq<Event<E>>,
)
    ensures
        ({
            let events = seq![Event::Written(Err(failure))] + afterwards;
            let start = Exchange::<E>::initial(measurement);
            &&& start.run(events) == Exchange::<E>::Done(Err(failure))
            &&& start.performed(events) == seq![BusStep::Write(measurement.command_byte())]
        }),
{
    let events = seq![Event::<E>::Written(Err(failure))] + afterwards;
    let start = Exchange::<E>::initial(measurement);
    let write = BusStep::Write(measurement.command_byte());
    assert(events.drop_first() =~= afterwards);
    lemma_done_is_final::<E>(Err(failure), afterwards);
    assert(start.run(events) == Exchange::<E>::Done(Err(failure)).run(afterwards));
    assert(start.performed(events) == seq![write] + Exchange::<E>::Done(Err(failure)).performed(
        afterwards,
    ));
    assert(seq![write] + Seq::<BusStep>::empty() =~= seq![write]);
}

/// When the write succeeds and the read fails, the exchange finishes with
/// the failure of the read.
pub proof fn lemma_failed_read_ends_exchange<E>(
    measurement: Measurement,
    failure: E,
    afterwards: Seq<Event<E>>,
)
    ensures
        ({
            let events = seq![Event::Written(Ok(())), Event::Received(Err(failure))] + afterwards;
            let start = Exchange::<E>::initial(measurement);
            &&& start.run(events) == Exchange::<E>::Done(Err(failure))
            &&& start.performed(events) == seq![
                BusStep::Write(measurement.command_byte()),
                BusStep::Read,
            ]
        }),
{
    let events = seq![Event::<E>::Written(Ok(())), Event::Received(Err(failure))] + afterwards;
    let reads = seq![Event::<E>::Received(Err(failure))] + afterwards;
    let start = Exchange::<E>::initial(measurement);
    let write = BusStep::Write(measurement.command_byte());
    assert(events.drop_first() =~= reads);
    assert(reads.drop_first() =~= afterwards);
    lemma_done_is_final::<E>(Err(failure), afterwards);
    assert(Exchange::<E>::Read(measurement).run(reads) == Exchange::<E>::Done(Err(failure)));
    assert(Exchange::<E>::Read(measurement).performed(reads) == seq![BusStep::Read]
        + Exchange::<E>::Done(Err(failure)).performed(afterwards));
    assert(start.run(events) == Exchange::<E>::Read(measurement).run(reads));
    assert(start.performed(events) == seq![write] + Exchange::<E>::Read(measurement).performed(
        reads,
    ));
    assert(seq![BusStep::Read] + Seq::<BusStep>::empty() =~= seq![BusStep::Read]);
    assert(seq![write] + seq![BusStep::Read] =~= seq![write, BusStep::Read]);
}

} // verus!
