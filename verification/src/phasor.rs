use vstd::prelude::*;

use crate::jacker::{can_register, can_stop, Status};

verus! {

use vstd::arithmetic::div_mod::{lemma_add_mod_noop, lemma_small_mod};

/// Number of payload bytes kept when a raw control message is copied out of
/// the real-time thread.
pub const MAX_MIDI: usize = 3;

/// The frequency a phasor synthesizes before any control message arrives,
/// in millihertz (220 Hz).
pub const INITIAL_FREQ_MHZ: u32 = 220_000;

/// Top of the frequency range a control message can select, in millihertz
/// (400 Hz at data byte 127).
pub const FREQ_RANGE_MHZ: u32 = 400_000;

/// Status byte marking a control-change message.
pub const CONTROL_CHANGE: u8 = 176;

/// Controller byte that addresses the frequency control.
pub const FREQ_CONTROLLER: u8 = 0;

/// Largest value a control-message data byte can carry.
pub const MIDI_DATA_MAX: u8 = 127;

/// One full waveform cycle in fixed-point phase units: a phase value `p`
/// stands for the position `p / PHASE_MODULUS` within the cycle, so every
/// representable phase lies in [0,1).
pub const PHASE_MODULUS: u64 = 0x1_0000_0000;

/// Capacity of the bridge that carries message snapshots to the
/// non-real-time observer thread.
pub const BRIDGE_CAPACITY: usize = 64;

/// A fixed-size copy of a raw control message, safe to move across the
/// thread boundary without allocation. Oversized messages are truncated to
/// `MAX_MIDI` bytes; missing bytes read as zero.
#[derive(Copy, Clone, Debug)]
pub struct MidiCopy {
    pub len: usize,
    pub data: [u8; 3],
    pub time: u32,
}

/// The payload kept in a snapshot: the first three bytes of the message,
/// padded with zeros.
pub open spec fn spec_midi_data(bytes: Seq<u8>) -> Seq<u8> {
    Seq::new(3, |i: int| if i < bytes.len() { bytes[i] } else { 0u8 })
}

impl MidiCopy {
    /// Copy at most `MAX_MIDI` bytes of a raw message, dropping the excess.
    pub fn from_bytes(bytes: &[u8], time: u32) -> (m: MidiCopy)
        ensures
            m.len == if bytes@.len() < 3 { bytes@.len() as int } else { 3int },
            m.data@ == spec_midi_data(bytes@),
            m.time == time,
    {
        let len = if bytes.len() < MAX_MIDI { bytes.len() } else { MAX_MIDI };
        let b0: u8 = if bytes.len() >= 1 { bytes[0] } else { 0 };
        let b1: u8 = if bytes.len() >= 2 { bytes[1] } else { 0 };
        let b2: u8 = if bytes.len() >= 3 { bytes[2] } else { 0 };
        let data: [u8; 3] = [b0, b1, b2];
        assert(data@ =~= spec_midi_data(bytes@));
        MidiCopy { len, data, time }
    }
}

/// The frequency selected by a control-message data byte, in millihertz:
/// the byte range 0..=127 is mapped linearly onto 0..=FREQ_RANGE_MHZ.
pub open spec fn spec_control_freq(data: u8) -> u32 {
    ((data * 400_000) / 127) as u32
}

/// Map a control-message data byte linearly onto the frequency range.
/// A byte within the protocol's 0..=127 range lands in
/// 0..=FREQ_RANGE_MHZ; the map stays linear beyond it.
pub fn control_freq_mhz(data: u8) -> (f: u32)
    ensures
        f == spec_control_freq(data),
        data <= MIDI_DATA_MAX ==> f <= FREQ_RANGE_MHZ,
{
    (data as u32 * 400_000) / 127
}

/// The frequency in force after one message: a control-change message
/// addressed to the frequency controller replaces it, every other message
/// leaves it alone.
pub open spec fn spec_freq_update(freq: u32, m: MidiCopy) -> u32 {
    if m.data@[0] == CONTROL_CHANGE && m.data@[1] == FREQ_CONTROLLER {
        spec_control_freq(m.data@[2])
    } else {
        freq
    }
}

/// The frequency in force after a whole block of messages: the last
/// frequency-control message wins.
pub open spec fn spec_block_freq(freq: u32, ms: Seq<MidiCopy>) -> u32
    decreases ms.len(),
{
    if ms.len() == 0 {
        freq
    } else {
        spec_freq_update(spec_block_freq(freq, ms.drop_last()), ms.last())
    }
}

/// Fixed-point phase increment per frame: `freq / sample_rate` cycles,
/// scaled by `PHASE_MODULUS` and reduced into one cycle.
pub open spec fn spec_phase_step(freq_mhz: int, sample_rate: int) -> int {
    ((freq_mhz * 0x1_0000_0000) / (sample_rate * 1000)) % 0x1_0000_0000
}

/// The phase one frame later: advance and wrap into the cycle.
pub open spec fn spec_phase_next(phase: int, step: int) -> int {
    (phase + step) % 0x1_0000_0000
}

/// The phase `n` frames later at a constant step.
pub open spec fn spec_phase_at(phase: int, step: int, n: nat) -> int
    decreases n,
{
    if n == 0 {
        phase % 0x1_0000_0000
    } else {
        spec_phase_next(spec_phase_at(phase, step, (n - 1) as nat), step)
    }
}

/// Advancing frame by frame accumulates linearly: starting from `phase`
/// with a constant step, after `n` frames the phase is
/// `(phase + n * step) mod PHASE_MODULUS` — the fixed-point form of
/// "`(F * N / S) mod 1`" for constant frequency `F` and sample rate `S`.
pub proof fn lemma_phase_closed_form(phase: int, step: int, n: nat)
    requires
        0 <= phase < 0x1_0000_0000,
        0 <= step < 0x1_0000_0000,
    ensures
        spec_phase_at(phase, step, n) == (phase + n * step) % 0x1_0000_0000,
    decreases n,
{
    if n == 0 {
        lemma_small_mod(phase as nat, 0x1_0000_0000nat);
    } else {
        lemma_phase_closed_form(phase, step, (n - 1) as nat);
        let prev = phase + (n - 1) * step;
        lemma_add_mod_noop(prev, step, 0x1_0000_0000);
        lemma_small_mod(step as nat, 0x1_0000_0000nat);
        assert((n - 1) * step + step == n * step) by (nonlinear_arith)
            requires n >= 1,
        ;
    }
}

/// Compute the per-frame phase increment for a frequency in millihertz.
pub fn phase_step(freq_mhz: u32, sample_rate: usize) -> (s: u32)
    requires
        1 <= sample_rate <= 0xFFFF_FFFF,
    ensures
        s == spec_phase_step(freq_mhz as int, sample_rate as int),
{
    let scaled: u64 = (freq_mhz as u64) * 0x1_0000_0000u64;
    let per_mhz: u64 = (sample_rate as u64) * 1000;
    let step: u64 = (scaled / per_mhz) % 0x1_0000_0000u64;
    step as u32
}

/// Advance a phase by one step, wrapping into [0, PHASE_MODULUS).
pub fn phase_next(phase: u32, step: u32) -> (p: u32)
    ensures
        p == spec_phase_next(phase as int, step as int),
{
    let sum: u64 = phase as u64 + step as u64;
    let wrapped: u64 = sum % 0x1_0000_0000u64;
    wrapped as u32
}

#[verifier::external_type_specification]
#[verifier::external_body]
#[verifier::reject_recursive_types(T)]
pub struct ExSyncSender<T>(std::sync::mpsc::SyncSender<T>);

/// Relies on std::sync::mpsc::SyncSender::try_send: non-blocking; when the
/// channel is full or disconnected the snapshot is dropped silently, which
/// is all the real-time caller is owed.
#[verifier::external_body]
pub fn post_snapshot(bridge: &std::sync::mpsc::SyncSender<MidiCopy>, m: MidiCopy) {
    let _ = bridge.try_send(m);
}

/// The phase generator: one real-time processing unit that turns its
/// current frequency into a per-block phase ramp and forwards control
/// messages to the observer bridge.
pub struct Phasor {
    pub name: String,
    pub status: Status,
    pub sample_rate: usize,
    /// Authoritative synthesis frequency, in millihertz.
    pub freq_mhz: u32,
    /// Current position in the cycle, in fixed-point units of
    /// 1/PHASE_MODULUS.
    pub phase: u32,
}

/// The sample rate a unit can be registered with: nonzero, and small
/// enough for the fixed-point step computation.
pub open spec fn valid_sample_rate(sample_rate: int) -> bool {
    1 <= sample_rate <= 0xFFFF_FFFF
}

impl Phasor {
    /// A fresh phasor: not yet registered, at phase zero, with the
    /// initial frequency.
    pub fn new(name: &str) -> (p: Phasor)
        ensures
            p.name@ == name@,
            p.status == Status::Init,
            p.sample_rate == 0,
            p.freq_mhz == INITIAL_FREQ_MHZ,
            p.phase == 0,
    {
        Phasor {
            name: name.to_owned(),
            status: Status::Init,
            sample_rate: 0,
            freq_mhz: INITIAL_FREQ_MHZ,
            phase: 0,
        }
    }

    pub fn status(&self) -> (s: Status)
        ensures
            s == self.status,
    {
        self.status
    }

    /// Adopt the sample rate the host engine granted and become `Ready`.
    /// Fails, leaving the unit untouched, when it is already running.
    pub fn register(&mut self, sample_rate: usize) -> (r: Result<Status, &'static str>)
        requires
            valid_sample_rate(sample_rate as int),
        ensures
            old(self).status == Status::Runnning ==> {
                &&& r matches Err(m) && m@ == "Already running"@
                &&& *final(self) == *old(self)
            },
            can_register(old(self).status) ==> {
                &&& r == Result::<Status, &'static str>::Ok(Status::Ready)
                &&& *final(self) == Phasor { status: Status::Ready, sample_rate, ..*old(self) }
            },
    {
        if self.status == Status::Runnning {
            return Err("Already running");
        }

        self.sample_rate = sample_rate;
        self.status = Status::Ready;
        Ok(Status::Ready)
    }

    /// Record that the host engine started invoking the callback.
    pub fn activate(&mut self)
        requires
            old(self).status == Status::Ready,
        ensures
            (*final(self) == Phasor { status: Status::Runnning, ..*old(self) }),
    {
        self.status = Status::Runnning;
    }

    /// Record a stop request. Fails, leaving the unit untouched, when it
    /// is already stopped.
    pub fn stop(&mut self) -> (r: Result<Status, &'static str>)
        ensures
            old(self).status == Status::Stopped ==> {
                &&& r matches Err(m) && m@ == "Already stopped"@
                &&& *final(self) == *old(self)
            },
            can_stop(old(self).status) ==> {
                &&& r == Result::<Status, &'static str>::Ok(Status::Stopped)
                &&& *final(self) == Phasor { status: Status::Stopped, ..*old(self) }
            },
    {
        if self.status == Status::Stopped {
            return Err("Already stopped");
        }

        self.status = Status::Stopped;
        Ok(Status::Stopped)
    }

    /// One block of the real-time callback: post a snapshot of every raw
    /// message to the bridge, let the last frequency-control message set
    /// the frequency, then emit `nframes` phase values and advance the
    /// internal phase by one step per frame.
    pub fn process_block(
        &mut self,
        bridge: &std::sync::mpsc::SyncSender<MidiCopy>,
        midi: &Vec<MidiCopy>,
        nframes: usize,
    ) -> (out: Vec<u32>)
        requires
            valid_sample_rate(old(self).sample_rate as int),
        ensures
            final(self).freq_mhz == spec_block_freq(old(self).freq_mhz, midi@),
            ({
                let step = spec_phase_step(final(self).freq_mhz as int, old(self).sample_rate as int);
                &&& out@.len() == nframes
                &&& forall|i: int|
                    0 <= i < nframes ==> out@[i] == spec_phase_at(old(self).phase as int, step, i as nat)
                &&& final(self).phase == spec_phase_at(old(self).phase as int, step, nframes as nat)
            }),
            final(self).name == old(self).name,
            final(self).status == old(self).status,
            final(self).sample_rate == old(self).sample_rate,
    {
        let mut fr: u32 = self.freq_mhz;
        let ghost f0: u32 = self.freq_mhz;

        for k in 0..midi.len()
            invariant
                fr == spec_block_freq(f0, midi@.subrange(0, k as int)),
                (*self == Phasor { freq_mhz: self.freq_mhz, ..*old(self) }),
                self.freq_mhz == f0,
        {
            let m = midi[k];
            post_snapshot(bridge, m);

            let control = m.data[0];
            let chan = m.data[1];
            let data = m.data[2];
            if control == CONTROL_CHANGE {
                if chan == FREQ_CONTROLLER {
                    fr = control_freq_mhz(data);
                }
            }
            proof {
                assert(midi@.subrange(0, k + 1).drop_last() =~= midi@.subrange(0, k as int));
                assert(midi@.subrange(0, k + 1).last() == midi@[k as int]);
            }
        }
        proof {
            assert(midi@.subrange(0, midi@.len() as int) =~= midi@);
        }
        self.freq_mhz = fr;

        let step = phase_step(fr, self.sample_rate);
        let ghost p0: u32 = self.phase;

        let mut out: Vec<u32> = Vec::new();
        for i in 0..nframes
            invariant
                out@.len() == i,
                forall|j: int|
                    0 <= j < i ==> out@[j] == spec_phase_at(p0 as int, step as int, j as nat),
                self.phase == spec_phase_at(p0 as int, step as int, i as nat),
                (*self == Phasor { phase: self.phase, ..Phasor { freq_mhz: fr, ..*old(self) } }),
        {
            out.push(self.phase);
            self.phase = phase_next(self.phase, step);
        }
        out
    }
}

} // verus!
