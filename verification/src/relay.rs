//! Duplex relay: the verified decision logic of the two copy directions that
//! carry bytes between the local terminal and the pty master.
//!
//! Each direction is a [`Pump`]: a state machine that is fed the outcome of
//! one read call at a time and answers with the action to perform — forward
//! the bytes read (to the local output and, in the tee-ing direction, to the
//! log sink as well), or stop, either cleanly on end-of-stream or with the
//! error that the endpoint reported.  A [`Relay`] joins the two directions
//! under the termination policy that the relay as a whole is finished as soon
//! as either direction stops; the other direction is abandoned in place.
//!
//! The surrounding program performs the actual read and write calls and feeds
//! their outcomes in; [`pump_events`] runs one whole direction over a given
//! sequence of read outcomes against in-memory sinks, and its contract states
//! the direction's laws: exactly the bytes read before the first stop are
//! delivered, in order, and the log receives byte-for-byte the same sequence
//! as the output.

use vstd::prelude::*;

verus! {

/// The outcome of one read call on a relay direction's source endpoint.
pub enum ReadEvent {
    /// The read delivered these bytes.
    Data(Vec<u8>),
    /// The read returned zero bytes: the writing side has closed.
    Closed,
    /// The read failed with this OS error code.
    Failed(i32),
}

/// Why a relay direction stopped.
#[derive(Clone, Copy, Debug, PartialEq, Eq, Structural)]
pub enum StopReason {
    /// The source endpoint reached clean end-of-stream.
    EndOfStream,
    /// A read on the source endpoint failed with this OS error code.
    Failed(i32),
}

/// What the surrounding program must do with the event it just handed in.
pub enum RelayAction {
    /// Write exactly these bytes to the direction's sink (and to the log, if
    /// this direction tees to one), then flush and read again.
    Forward(Vec<u8>),
    /// Stop this direction; no further event may be fed into it.
    Stop(StopReason),
}

/// The mathematical value of a read outcome.
#[verifier::ext_equal]
pub enum EventModel {
    Data(Seq<u8>),
    Closed,
    Failed(i32),
}

impl View for ReadEvent {
    type V = EventModel;

    open spec fn view(&self) -> EventModel {
        match self {
            ReadEvent::Data(b) => EventModel::Data(b@),
            ReadEvent::Closed => EventModel::Closed,
            ReadEvent::Failed(e) => EventModel::Failed(*e),
        }
    }
}

/// The values of a sequence of read outcomes.
pub open spec fn models_of(events: Seq<ReadEvent>) -> Seq<EventModel> {
    events.map_values(|e: ReadEvent| e@)
}

/// The bytes a relay direction delivers for a sequence of read outcomes: the
/// concatenation, in order, of the data of every read before the first
/// end-of-stream or error; nothing past the first stop is delivered.
pub open spec fn relayed_bytes(events: Seq<EventModel>) -> Seq<u8>
    decreases events.len(),
{
    if events.len() == 0 {
        Seq::empty()
    } else {
        match events[0] {
            EventModel::Data(b) => b + relayed_bytes(events.drop_first()),
            EventModel::Closed => Seq::empty(),
            EventModel::Failed(_) => Seq::empty(),
        }
    }
}

/// Why a relay direction stops on a sequence of read outcomes: the first
/// end-of-stream or error, if there is one.
pub open spec fn stop_of(events: Seq<EventModel>) -> Option<StopReason>
    decreases events.len(),
{
    if events.len() == 0 {
        None
    } else {
        match events[0] {
            EventModel::Data(_) => stop_of(events.drop_first()),
            EventModel::Closed => Some(StopReason::EndOfStream),
            EventModel::Failed(e) => Some(StopReason::Failed(e)),
        }
    }
}

/// One relay direction: fed one read outcome at a time, it decides the action
/// and records (in ghost state) every byte it has asked to be forwarded.
pub struct Pump {
    /// Why this direction stopped, once it has.
    pub stopped: Option<StopReason>,
    /// All bytes this direction has asked to be forwarded so far.
    pub forwarded: Ghost<Seq<u8>>,
}

impl Pump {
    /// A direction that has not stopped and has forwarded nothing.
    pub fn new() -> (p: Pump)
        ensures
            p.stopped is None,
            p.forwarded@ == Seq::<u8>::empty(),
    {
        Pump { stopped: None, forwarded: Ghost(Seq::empty()) }
    }

    /// Whether this direction is still running.
    pub fn is_running(&self) -> (r: bool)
        ensures
            r == (self.stopped is None),
    {
        self.stopped.is_none()
    }

    /// Feed the outcome of one read call into this direction.
    ///
    /// Data is answered with the order to forward exactly those bytes and the
    /// direction keeps running; end-of-stream and a read error each stop the
    /// direction with the matching reason, and forward nothing.
    pub fn step(&mut self, event: ReadEvent) -> (action: RelayAction)
        requires
            old(self).stopped is None,
        ensures
            match event@ {
                EventModel::Data(b) => {
                    &&& final(self).stopped is None
                    &&& final(self).forwarded@ == old(self).forwarded@ + b
                    &&& action matches RelayAction::Forward(v) && v@ == b
                },
                EventModel::Closed => {
                    &&& final(self).stopped == Some(StopReason::EndOfStream)
                    &&& final(self).forwarded@ == old(self).forwarded@
                    &&& action == RelayAction::Stop(StopReason::EndOfStream)
                },
                EventModel::Failed(e) => {
                    &&& final(self).stopped == Some(StopReason::Failed(e))
                    &&& final(self).forwarded@ == old(self).forwarded@
                    &&& action == RelayAction::Stop(StopReason::Failed(e))
                },
            },
    {
        match event {
            ReadEvent::Data(b) => {
                self.forwarded = Ghost(self.forwarded@ + b@);
                RelayAction::Forward(b)
            },
            ReadEvent::Closed => {
                self.stopped = Some(StopReason::EndOfStream);
                RelayAction::Stop(StopReason::EndOfStream)
            },
            ReadEvent::Failed(e) => {
                self.stopped = Some(StopReason::Failed(e));
                RelayAction::Stop(StopReason::Failed(e))
            },
        }
    }
}

/// The two copy directions of a duplex relay.
#[derive(Clone, Copy, Debug, PartialEq, Eq, Structural)]
pub enum Direction {
    /// Bytes read from the pty master, delivered to the local output (and to
    /// the log sink, when one is attached).
    PtyToLocal,
    /// Bytes read from the local input, delivered to the pty master.
    LocalToPty,
}

/// A duplex relay: both directions, and the record of which direction was the
/// first to stop.  The relay as a whole is finished as soon as either
/// direction has stopped; the other direction is then abandoned in place and
/// its later outcome, if any, is not what the relay reports.
pub struct Relay {
    pub pty_to_local: Pump,
    pub local_to_pty: Pump,
    pub first_stop: Option<(Direction, StopReason)>,
}

impl Relay {
    /// The pump of the given direction.
    pub open spec fn pump_of(self, direction: Direction) -> Pump {
        match direction {
            Direction::PtyToLocal => self.pty_to_local,
            Direction::LocalToPty => self.local_to_pty,
        }
    }

    /// A relay's record of the first stop is faithful: it exists exactly when
    /// some direction has stopped, and it names a direction that did stop,
    /// with that direction's reason.
    pub open spec fn well_formed(self) -> bool {
        &&& (self.first_stop is Some <==> (self.pty_to_local.stopped is Some
            || self.local_to_pty.stopped is Some))
        &&& (self.first_stop matches Some((d, r)) ==> self.pump_of(d).stopped == Some(r))
    }

    /// A relay with both directions running.
    pub fn new() -> (r: Relay)
        ensures
            r.well_formed(),
            r.pty_to_local.stopped is None,
            r.local_to_pty.stopped is None,
            r.pty_to_local.forwarded@ == Seq::<u8>::empty(),
            r.local_to_pty.forwarded@ == Seq::<u8>::empty(),
            r.first_stop is None,
    {
        Relay { pty_to_local: Pump::new(), local_to_pty: Pump::new(), first_stop: None }
    }

    /// Feed the outcome of one read call on the given direction's source.
    ///
    /// The named direction steps as [`Pump::step`] does; the other direction
    /// is untouched.  If this event stops the named direction and no
    /// direction had stopped before, it is recorded as the relay's first
    /// stop; a stop that loses the race is not recorded.
    pub fn on_read(&mut self, direction: Direction, event: ReadEvent) -> (action: RelayAction)
        requires
            old(self).well_formed(),
            old(self).pump_of(direction).stopped is None,
        ensures
            final(self).well_formed(),
            final(self).pump_of(direction).stopped is None ==> final(self).first_stop == old(
                self,
            ).first_stop,
            match event@ {
                EventModel::Data(b) => {
                    &&& final(self).pump_of(direction).stopped is None
                    &&& final(self).pump_of(direction).forwarded@ == old(self).pump_of(
                        direction,
                    ).forwarded@ + b
                    &&& action matches RelayAction::Forward(v) && v@ == b
                },
                EventModel::Closed => {
                    &&& final(self).pump_of(direction).stopped == Some(StopReason::EndOfStream)
                    &&& final(self).pump_of(direction).forwarded@ == old(self).pump_of(
                        direction,
                    ).forwarded@
                    &&& action == RelayAction::Stop(StopReason::EndOfStream)
                    &&& final(self).first_stop == if old(self).first_stop is None {
                        Some((direction, StopReason::EndOfStream))
                    } else {
                        old(self).first_stop
                    }
                },
                EventModel::Failed(e) => {
                    &&& final(self).pump_of(direction).stopped == Some(StopReason::Failed(e))
                    &&& final(self).pump_of(direction).forwarded@ == old(self).pump_of(
                        direction,
                    ).forwarded@
                    &&& action == RelayAction::Stop(StopReason::Failed(e))
                    &&& final(self).first_stop == if old(self).first_stop is None {
                        Some((direction, StopReason::Failed(e)))
                    } else {
                        old(self).first_stop
                    }
                },
            },
            final(self).pump_of(other_direction(direction)) == old(self).pump_of(
                other_direction(direction),
            ),
    {
        let action = match direction {
            Direction::PtyToLocal => self.pty_to_local.step(event),
            Direction::LocalToPty => self.local_to_pty.step(event),
        };
        if let RelayAction::Stop(reason) = &action {
            if self.first_stop.is_none() {
                self.first_stop = Some((direction, *reason));
            }
        }
        action
    }

    /// Whether the relay as a whole is finished: some direction has stopped.
    pub fn finished(&self) -> (r: bool)
        requires
            self.well_formed(),
        ensures
            r == (self.first_stop is Some),
            r == (self.pty_to_local.stopped is Some || self.local_to_pty.stopped is Some),
    {
        self.first_stop.is_some()
    }

    /// The first direction to stop, with its reason — the outcome the relay
    /// reports.  A stop of the abandoned sibling direction is not reported.
    pub fn outcome(&self) -> (r: Option<(Direction, StopReason)>)
        ensures
            r == self.first_stop,
    {
        self.first_stop
    }
}

/// The sibling of a direction.
pub open spec fn other_direction(direction: Direction) -> Direction {
    match direction {
        Direction::PtyToLocal => Direction::LocalToPty,
        Direction::LocalToPty => Direction::PtyToLocal,
    }
}

/// A prefix of data reads is delivered whole and does not stop the
/// direction: what is relayed for the prefix followed by a tail is the
/// prefix's data followed by whatever the tail alone relays, and the stop is
/// the tail's.
pub proof fn lemma_data_prefix(prefix: Seq<EventModel>, tail: Seq<EventModel>)
    requires
        forall|i: int| 0 <= i < prefix.len() ==> prefix[i] is Data,
    ensures
        relayed_bytes(prefix + tail) == relayed_bytes(prefix) + relayed_bytes(tail),
        stop_of(prefix + tail) == stop_of(tail),
    decreases prefix.len(),
{
    if prefix.len() == 0 {
        assert(prefix + tail =~= tail);
        assert(relayed_bytes(prefix) + relayed_bytes(tail) =~= relayed_bytes(tail));
    } else {
        let rest = prefix.drop_first();
        lemma_data_prefix(rest, tail);
        assert((prefix + tail).drop_first() =~= rest + tail);
        let b = prefix[0]->Data_0;
        assert(relayed_bytes(prefix + tail) == b + relayed_bytes(rest + tail));
        assert(b + (relayed_bytes(rest) + relayed_bytes(tail)) =~= (b + relayed_bytes(rest))
            + relayed_bytes(tail));
    }
}

/// Law of relay termination: when the source endpoint delivers some data
/// reads and then end-of-stream, the direction delivers exactly the bytes of
/// those reads — whatever would have followed is not read — and stops
/// cleanly.
pub proof fn lemma_relay_termination(prefix: Seq<EventModel>, unread: Seq<EventModel>)
    requires
        forall|i: int| 0 <= i < prefix.len() ==> prefix[i] is Data,
    ensures
        relayed_bytes(prefix + seq![EventModel::Closed] + unread) == relayed_bytes(prefix),
        stop_of(prefix + seq![EventModel::Closed] + unread) == Some(StopReason::EndOfStream),
{
    lemma_data_prefix(prefix, seq![EventModel::Closed] + unread);
    assert(prefix + (seq![EventModel::Closed] + unread) =~= prefix + seq![EventModel::Closed]
        + unread);
    assert((seq![EventModel::Closed] + unread)[0] is Closed);
    assert(relayed_bytes(prefix) + relayed_bytes(seq![EventModel::Closed] + unread)
        =~= relayed_bytes(prefix));
}

/// Append a copy of `src` to `dst`.
fn push_all(dst: &mut Vec<u8>, src: &Vec<u8>)
    ensures
        final(dst)@ == old(dst)@ + src@,
{
    let mut i: usize = 0;
    while i < src.len()
        invariant
            i <= src@.len(),
            dst@ == old(dst)@ + src@.take(i as int),
        decreases src@.len() - i,
    {
        dst.push(src[i]);
        assert(old(dst)@ + src@.take(i + 1) =~= (old(dst)@ + src@.take(i as int)).push(
            src@[i as int],
        ));
        i = i + 1;
    }
    assert(src@.take(src@.len() as int) =~= src@);
}

/// The result of running one relay direction over a sequence of read
/// outcomes: what reached the direction's sink, what reached the log sink,
/// and why the direction stopped, if it did.
pub struct DirectionRun {
    pub output: Vec<u8>,
    pub log: Vec<u8>,
    pub reason: Option<StopReason>,
}

/// Run one relay direction over a whole sequence of read outcomes, delivering
/// into in-memory sinks.
///
/// Laws of the direction (its contract): the sink receives exactly the bytes
/// of the reads before the first end-of-stream or error, in order — events
/// after the first stop are never consumed — and, when a log sink is
/// attached, the log receives byte-for-byte the same sequence as the output.
/// Without a log sink the log stays empty.
pub fn pump_events(events: Vec<ReadEvent>, with_log: bool) -> (r: DirectionRun)
    ensures
        r.output@ == relayed_bytes(models_of(events@)),
        r.reason == stop_of(models_of(events@)),
        with_log ==> r.log@ == r.output@,
        !with_log ==> r.log@ == Seq::<u8>::empty(),
{
    let ghost all: Seq<EventModel> = models_of(events@);
    let ghost done: Seq<EventModel> = Seq::empty();
    let mut rest = events;
    let mut pump = Pump::new();
    let mut output: Vec<u8> = Vec::new();
    let mut log: Vec<u8> = Vec::new();
    let mut reason: Option<StopReason> = None;

    proof {
        assert(done + models_of(rest@) =~= all);
    }
    while reason.is_none() && rest.len() > 0
        invariant
            done + models_of(rest@) == all,
            reason is None ==> {
                &&& forall|i: int| 0 <= i < done.len() ==> done[i] is Data
                &&& pump.stopped is None
                &&& output@ == relayed_bytes(done)
            },
            reason matches Some(why) ==> {
                &&& output@ == relayed_bytes(all)
                &&& stop_of(all) == Some(why)
                &&& pump.stopped == Some(why)
            },
            pump.forwarded@ == output@,
            log@ == if with_log {
                output@
            } else {
                Seq::<u8>::empty()
            },
        decreases rest@.len(),
    {
        let ghost done_before = done;
        let ghost tail = models_of(rest@);
        let event = rest.remove(0);
        proof {
            assert(models_of(rest@) =~= tail.drop_first());
            done = done.push(event@);
            assert(done_before + tail =~= done + models_of(rest@));
        }
        let action = pump.step(event);
        match action {
            RelayAction::Forward(bytes) => {
                push_all(&mut output, &bytes);
                if with_log {
                    push_all(&mut log, &bytes);
                }
                proof {
                    lemma_data_prefix(done_before, seq![event@]);
                    assert(done_before + seq![event@] =~= done);
                    assert(seq![event@].drop_first() =~= Seq::<EventModel>::empty());
                    assert(relayed_bytes(seq![event@]) == event@->Data_0 + relayed_bytes(
                        Seq::<EventModel>::empty(),
                    ));
                    assert(relayed_bytes(seq![event@]) =~= event@->Data_0);
                    assert(relayed_bytes(done) == relayed_bytes(done_before) + event@->Data_0);
                }
            },
            RelayAction::Stop(why) => {
                reason = Some(why);
                proof {
                    lemma_data_prefix(done_before, tail);
                    assert(done_before + tail =~= all);
                    assert(relayed_bytes(tail) =~= Seq::<u8>::empty());
                    assert(relayed_bytes(all) =~= relayed_bytes(done_before));
                    assert(stop_of(all) == stop_of(tail));
                }
            },
        }
    }
    if reason.is_none() {
        proof {
            assert(models_of(rest@) =~= Seq::<EventModel>::empty());
            lemma_data_prefix(done, models_of(rest@));
            assert(done + models_of(rest@) =~= done);
            assert(relayed_bytes(all) =~= relayed_bytes(done));
        }
    }
    DirectionRun { output, log, reason }
}

/// The values of an interleaved sequence of read outcomes, each tagged with
/// the direction whose source produced it.
pub open spec fn duplex_models(events: Seq<(Direction, ReadEvent)>) -> Seq<(Direction, EventModel)> {
    events.map_values(|p: (Direction, ReadEvent)| (p.0, p.1@))
}

/// The bytes a duplex relay delivers toward the given direction's sink for an
/// interleaved sequence of read outcomes: the data of that direction's reads,
/// in order, up to the first stop on either direction — whichever direction
/// stops first ends the whole relay.
pub open spec fn duplex_bytes(events: Seq<(Direction, EventModel)>, direction: Direction) -> Seq<
    u8,
>
    decreases events.len(),
{
    if events.len() == 0 {
        Seq::empty()
    } else {
        match events[0].1 {
            EventModel::Data(b) => if events[0].0 == direction {
                b + duplex_bytes(events.drop_first(), direction)
            } else {
                duplex_bytes(events.drop_first(), direction)
            },
            EventModel::Closed => Seq::empty(),
            EventModel::Failed(_) => Seq::empty(),
        }
    }
}

/// The first stop in an interleaved sequence of read outcomes, with the
/// direction it happened on.
pub open spec fn duplex_stop(events: Seq<(Direction, EventModel)>) -> Option<
    (Direction, StopReason),
>
    decreases events.len(),
{
    if events.len() == 0 {
        None
    } else {
        match events[0].1 {
            EventModel::Data(_) => duplex_stop(events.drop_first()),
            EventModel::Closed => Some((events[0].0, StopReason::EndOfStream)),
            EventModel::Failed(e) => Some((events[0].0, StopReason::Failed(e))),
        }
    }
}

/// A prefix of data reads, on either direction, is delivered whole and does
/// not end the relay: the stop is the tail's, and each sink receives the
/// prefix's bytes for its direction followed by the tail's.
pub proof fn lemma_duplex_data_prefix(
    prefix: Seq<(Direction, EventModel)>,
    tail: Seq<(Direction, EventModel)>,
    direction: Direction,
)
    requires
        forall|i: int| 0 <= i < prefix.len() ==> prefix[i].1 is Data,
    ensures
        duplex_bytes(prefix + tail, direction) == duplex_bytes(prefix, direction) + duplex_bytes(
            tail,
            direction,
        ),
        duplex_stop(prefix + tail) == duplex_stop(tail),
    decreases prefix.len(),
{
    if prefix.len() == 0 {
        assert(prefix + tail =~= tail);
        assert(duplex_bytes(prefix, direction) + duplex_bytes(tail, direction) =~= duplex_bytes(
            tail,
            direction,
        ));
    } else {
        let rest = prefix.drop_first();
        lemma_duplex_data_prefix(rest, tail, direction);
        assert((prefix + tail).drop_first() =~= rest + tail);
        if prefix[0].0 == direction {
            let b = prefix[0].1->Data_0;
            assert(b + (duplex_bytes(rest, direction) + duplex_bytes(tail, direction)) =~= (b
                + duplex_bytes(rest, direction)) + duplex_bytes(tail, direction));
        }
    }
}

/// What one whole duplex relay delivered: the bytes that reached the local
/// output, the bytes that reached the pty master, the bytes that reached the
/// log sink, and the first stop, if any.
pub struct DuplexRun {
    pub to_local: Vec<u8>,
    pub to_pty: Vec<u8>,
    pub log: Vec<u8>,
    pub outcome: Option<(Direction, StopReason)>,
}

/// Run a whole duplex relay over an interleaved sequence of read outcomes,
/// delivering into in-memory sinks.
///
/// Law of the termination policy (the contract): the relay consumes events
/// only up to the first end-of-stream or error on either direction — that
/// stop, and no later one, is the relay's outcome — and by then each sink has
/// received exactly its direction's bytes read before the stop, in order; the
/// log sink, when attached, holds byte-for-byte what the local output
/// received.
pub fn relay_script(events: Vec<(Direction, ReadEvent)>, with_log: bool) -> (r: DuplexRun)
    ensures
        r.to_local@ == duplex_bytes(duplex_models(events@), Direction::PtyToLocal),
        r.to_pty@ == duplex_bytes(duplex_models(events@), Direction::LocalToPty),
        r.outcome == duplex_stop(duplex_models(events@)),
        with_log ==> r.log@ == r.to_local@,
        !with_log ==> r.log@ == Seq::<u8>::empty(),
{
    let ghost all: Seq<(Direction, EventModel)> = duplex_models(events@);
    let ghost done: Seq<(Direction, EventModel)> = Seq::empty();
    let mut rest = events;
    let mut relay = Relay::new();
    let mut to_local: Vec<u8> = Vec::new();
    let mut to_pty: Vec<u8> = Vec::new();
    let mut log: Vec<u8> = Vec::new();
    let mut outcome: Option<(Direction, StopReason)> = None;

    proof {
        assert(done + duplex_models(rest@) =~= all);
    }
    while outcome.is_none() && rest.len() > 0
        invariant
            done + duplex_models(rest@) == all,
            outcome is None ==> {
                &&& forall|i: int| 0 <= i < done.len() ==> done[i].1 is Data
                &&& relay.well_formed()
                &&& relay.pty_to_local.stopped is None
                &&& relay.local_to_pty.stopped is None
                &&& relay.first_stop is None
                &&& to_local@ == duplex_bytes(done, Direction::PtyToLocal)
                &&& to_pty@ == duplex_bytes(done, Direction::LocalToPty)
            },
            outcome matches Some(oc) ==> {
                &&& to_local@ == duplex_bytes(all, Direction::PtyToLocal)
                &&& to_pty@ == duplex_bytes(all, Direction::LocalToPty)
                &&& duplex_stop(all) == Some(oc)
            },
            log@ == if with_log {
                to_local@
            } else {
                Seq::<u8>::empty()
            },
        decreases rest@.len(),
    {
        let ghost done_before = done;
        let ghost tail = duplex_models(rest@);
        let (direction, event) = rest.remove(0);
        proof {
            assert(duplex_models(rest@) =~= tail.drop_first());
            done = done.push((direction, event@));
            assert(done_before + tail =~= done + duplex_models(rest@));
        }
        let action = relay.on_read(direction, event);
        match action {
            RelayAction::Forward(bytes) => {
                match direction {
                    Direction::PtyToLocal => {
                        push_all(&mut to_local, &bytes);
                        if with_log {
                            push_all(&mut log, &bytes);
                        }
                    },
                    Direction::LocalToPty => {
                        push_all(&mut to_pty, &bytes);
                    },
                }
                proof {
                    let single = seq![(direction, event@)];
                    if direction == Direction::PtyToLocal {
                        assert(other_direction(direction) == Direction::LocalToPty);
                    } else {
                        assert(other_direction(direction) == Direction::PtyToLocal);
                    }
                    lemma_duplex_data_prefix(done_before, single, Direction::PtyToLocal);
                    lemma_duplex_data_prefix(done_before, single, Direction::LocalToPty);
                    assert(done_before + single =~= done);
                    assert(single.drop_first() =~= Seq::<(Direction, EventModel)>::empty());
                    assert(duplex_bytes(single, direction) == event@->Data_0 + duplex_bytes(
                        single.drop_first(),
                        direction,
                    ));
                    assert(duplex_bytes(single, direction) =~= event@->Data_0);
                    let other = other_direction(direction);
                    assert(single[0].0 != other);
                    assert(duplex_bytes(single, other) == duplex_bytes(
                        single.drop_first(),
                        other,
                    ));
                    assert(duplex_bytes(Seq::<(Direction, EventModel)>::empty(), other)
                        == Seq::<u8>::empty());
                    assert(duplex_bytes(single, other) =~= Seq::<u8>::empty());
                }
            },
            RelayAction::Stop(why) => {
                outcome = Some((direction, why));
                proof {
                    lemma_duplex_data_prefix(done_before, tail, Direction::PtyToLocal);
                    lemma_duplex_data_prefix(done_before, tail, Direction::LocalToPty);
                    assert(done_before + tail =~= all);
                    assert(duplex_bytes(tail, Direction::PtyToLocal) =~= Seq::<u8>::empty());
                    assert(duplex_bytes(tail, Direction::LocalToPty) =~= Seq::<u8>::empty());
                    assert(duplex_stop(all) == duplex_stop(tail));
                }
            },
        }
    }
    if outcome.is_none() {
        proof {
            assert(duplex_models(rest@) =~= Seq::<(Direction, EventModel)>::empty());
            lemma_duplex_data_prefix(done, duplex_models(rest@), Direction::PtyToLocal);
            lemma_duplex_data_prefix(done, duplex_models(rest@), Direction::LocalToPty);
            assert(done + duplex_models(rest@) =~= done);
        }
    }
    DuplexRun { to_local, to_pty, log, outcome }
}

} // verus!
