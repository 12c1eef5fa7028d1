use vstd::prelude::*;

use crate::controller::{try_recv_event, Event, CHANNEL_CAPACITY};
use crate::jacker::{can_register, can_stop, Status};
use crate::phasor::valid_sample_rate;
use crate::waveform::Waveform;

verus! {

/// The waveform selected after a run of events: the last waveform change
/// wins, and frequency events are ignored here — frequency is owned by
/// the phase generator.
pub open spec fn spec_apply_events(current: Waveform, evs: Seq<Event>) -> Waveform
    decreases evs.len(),
{
    if evs.len() == 0 {
        current
    } else {
        match evs.last() {
            Event::Wave(w) => w,
            Event::Frequency(_) => spec_apply_events(current, evs.drop_last()),
        }
    }
}

/// Last write wins: however the selection stood and whatever events came
/// before, a run of events that ends in a waveform change selects exactly
/// that waveform.
pub proof fn lemma_last_wave_wins(current: Waveform, evs: Seq<Event>, w: Waveform)
    ensures
        spec_apply_events(current, evs.push(Event::Wave(w))) == w,
{
    assert(evs.push(Event::Wave(w)).last() == Event::Wave(w));
}

/// Fold a run of drained events into the active waveform selection.
pub fn apply_events(current: Waveform, events: &Vec<Event>) -> (w: Waveform)
    ensures
        w == spec_apply_events(current, events@),
{
    let mut w = current;
    for k in 0..events.len()
        invariant
            w == spec_apply_events(current, events@.subrange(0, k as int)),
    {
        match events[k] {
            Event::Wave(new_waveform) => {
                w = new_waveform;
            },
            Event::Frequency(_) => {},
        }
        proof {
            assert(events@.subrange(0, k + 1).drop_last() =~= events@.subrange(0, k as int));
            assert(events@.subrange(0, k + 1).last() == events@[k as int]);
        }
    }
    proof {
        assert(events@.subrange(0, events@.len() as int) =~= events@);
    }
    w
}

/// Collect whatever the bus holds right now, without blocking: at most
/// one bus capacity's worth of events, oldest first.
pub fn drain_events(rx: &crossbeam_channel::Receiver<Event>) -> (evs: Vec<Event>)
    ensures
        evs@.len() <= CHANNEL_CAPACITY,
{
    let mut evs: Vec<Event> = Vec::new();
    for _k in 0..CHANNEL_CAPACITY
        invariant
            evs@.len() <= _k,
    {
        match try_recv_event(rx) {
            Some(e) => evs.push(e),
            None => { break },
        }
    }
    evs
}

/// The waveform renderer: one real-time processing unit that maps a phase
/// buffer to an amplitude buffer using a runtime-selectable waveform.
pub struct Osc {
    pub waveform: Waveform,
    pub name: String,
    pub status: Status,
    pub sample_rate: usize,
}

impl Osc {
    /// A fresh oscillator: not yet registered, rendering a sine.
    pub fn new(name: &str) -> (o: Osc)
        ensures
            o.waveform == Waveform::Sine,
            o.name@ == name@,
            o.status == Status::Init,
            o.sample_rate == 0,
    {
        Osc {
            waveform: Waveform::Sine,
            name: name.to_owned(),
            status: Status::Init,
            sample_rate: 0,
        }
    }

    pub fn status(&self) -> (s: Status)
        ensures
            s == self.status,
    {
        self.status
    }

    /// Adopt the sample rate the host engine granted and become `Ready`.
    /// Fails, leaving the unit untouched, when it is already running.
    pub fn register(&mut self, sample_rate: usize) -> (r: Result<Status, &'static str>)
        requires
            valid_sample_rate(sample_rate as int),
        ensures
            old(self).status == Status::Runnning ==> {
                &&& r matches Err(m) && m@ == "Already running"@
                &&& *final(self) == *old(self)
            },
            can_register(old(self).status) ==> {
                &&& r == Result::<Status, &'static str>::Ok(Status::Ready)
                &&& *final(self) == Osc { status: Status::Ready, sample_rate, ..*old(self) }
            },
    {
        if self.status == Status::Runnning {
            return Err("Already running");
        }

        self.sample_rate = sample_rate;
        self.status = Status::Ready;
        Ok(Status::Ready)
    }

    /// Record that the host engine started invoking the callback.
    pub fn activate(&mut self)
        requires
            old(self).status == Status::Ready,
        ensures
            (*final(self) == Osc { status: Status::Runnning, ..*old(self) }),
    {
        self.status = Status::Runnning;
    }

    /// Record a stop request. Fails, leaving the unit untouched, when it
    /// is already stopped.
    pub fn stop(&mut self) -> (r: Result<Status, &'static str>)
        ensures
            old(self).status == Status::Stopped ==> {
                &&& r matches Err(m) && m@ == "Already stopped"@
                &&& *final(self) == *old(self)
            },
            can_stop(old(self).status) ==> {
                &&& r == Result::<Status, &'static str>::Ok(Status::Stopped)
                &&& *final(self) == Osc { status: Status::Stopped, ..*old(self) }
            },
    {
        if self.status == Status::Stopped {
            return Err("Already stopped");
        }

        self.status = Status::Stopped;
        Ok(Status::Stopped)
    }

    /// The control step of the per-block callback: drain the event bus
    /// without blocking and let the last waveform change win. The bus
    /// contents are only known at run time, so all that is promised is
    /// that nothing but the selection changes, and that the selection
    /// moves as `spec_apply_events` says over whatever was drained.
    pub fn drain_bus(&mut self, rx: &crossbeam_channel::Receiver<Event>) -> (evs: Ghost<Seq<Event>>)
        ensures
            final(self).waveform == spec_apply_events(old(self).waveform, evs@),
            final(self).name == old(self).name,
            final(self).status == old(self).status,
            final(self).sample_rate == old(self).sample_rate,
    {
        let drained = drain_events(rx);
        self.waveform = apply_events(self.waveform, &drained);
        Ghost(drained@)
    }
}

} // verus!
