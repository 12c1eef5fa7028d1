use synth_core::controller::{Controller, Event};
use synth_core::jacker::Status;
use synth_core::osc::{apply_events, drain_events, Osc};
use synth_core::phasor::{
    control_freq_mhz, MidiCopy, Phasor, BRIDGE_CAPACITY, INITIAL_FREQ_MHZ, PHASE_MODULUS,
};
use synth_core::waveform::{wave_of_token, Waveform};

fn bridge() -> (
    std::sync::mpsc::SyncSender<MidiCopy>,
    std::sync::mpsc::Receiver<MidiCopy>,
) {
    std::sync::mpsc::sync_channel(BRIDGE_CAPACITY)
}

fn midi(data: [u8; 3], time: u32) -> MidiCopy {
    MidiCopy { len: 3, data, time }
}

#[test]
fn event_bus_fifo_order() {
    let controller = Controller::new();
    let e1 = Event::Frequency(1000);
    let e2 = Event::Wave(Waveform::Square);
    let e3 = Event::Frequency(3000);

    controller.send(e1).unwrap();
    controller.send(e2).unwrap();
    controller.send(e3).unwrap();

    let drained = drain_events(&controller.rx);
    assert_eq!(drained, vec![e1, e2, e3]);

    // the bus is empty afterwards
    assert_eq!(drain_events(&controller.rx), vec![]);
}

#[test]
fn send_fails_without_receiver() {
    let Controller { tx, rx, freq } = Controller::new();
    drop(rx);
    let spare = Controller::new();
    // stand in a receiver of another bus: the sender's own is gone
    let c = Controller { tx, rx: spare.rx, freq };
    let e = Event::Wave(Waveform::Sine);
    assert_eq!(c.send(e), Err(e));
}

#[test]
fn last_write_wins_in_block() {
    let controller = Controller::new();
    controller.send(Event::Wave(Waveform::Square)).unwrap();
    controller.send(Event::Wave(Waveform::Sawtooth)).unwrap();

    let mut osc = Osc::new("sine");
    osc.drain_bus(&controller.rx);

    assert_eq!(osc.waveform, Waveform::Sawtooth);
}

#[test]
fn frequency_events_do_not_touch_selection() {
    let evs = vec![
        Event::Wave(Waveform::Square),
        Event::Frequency(123_000),
    ];
    assert_eq!(apply_events(Waveform::Sine, &evs), Waveform::Square);
    assert_eq!(apply_events(Waveform::Sine, &vec![]), Waveform::Sine);
}

#[test]
fn wave_tokens() {
    assert_eq!(wave_of_token("1"), Some(Waveform::Sine));
    assert_eq!(wave_of_token("2"), Some(Waveform::Square));
    assert_eq!(wave_of_token("3"), Some(Waveform::Sawtooth));
    assert_eq!(wave_of_token("4"), None);
    assert_eq!(wave_of_token(""), None);
    assert_eq!(wave_of_token("12"), None);
}

#[test]
fn midi_copy_truncates() {
    let long = [1u8, 2, 3, 4, 5];
    let m = MidiCopy::from_bytes(&long[..], 17);
    assert_eq!(m.len, 3);
    assert_eq!(m.data, [1, 2, 3]);
    assert_eq!(m.time, 17);

    let short = [9u8];
    let m = MidiCopy::from_bytes(&short[..], 0);
    assert_eq!(m.len, 1);
    assert_eq!(m.data, [9, 0, 0]);
}

#[test]
fn register_while_running_fails() {
    let mut phasor = Phasor::new("phasor");
    assert_eq!(phasor.status(), Status::Init);

    assert_eq!(phasor.register(44100), Ok(Status::Ready));
    phasor.activate();
    assert_eq!(phasor.status(), Status::Runnning);

    assert_eq!(phasor.register(44100), Err("Already running"));
    assert_eq!(phasor.status(), Status::Runnning);
}

#[test]
fn stop_while_stopped_fails() {
    let mut osc = Osc::new("sine");
    assert_eq!(osc.register(44100), Ok(Status::Ready));
    assert_eq!(osc.stop(), Ok(Status::Stopped));
    assert_eq!(osc.stop(), Err("Already stopped"));
    assert_eq!(osc.status(), Status::Stopped);

    // a stopped unit may register again
    assert_eq!(osc.register(48000), Ok(Status::Ready));
}

#[test]
fn phase_after_hundred_frames() {
    // 220 Hz at 44100 Hz from phase 0: after 100 frames the phase is
    // 220 * 100 / 44100 mod 1, about 0.4989.
    let mut phasor = Phasor::new("phasor");
    phasor.register(44100).unwrap();
    phasor.activate();
    assert_eq!(phasor.freq_mhz, INITIAL_FREQ_MHZ);

    let (tx, _rx) = bridge();
    let out = phasor.process_block(&tx, &vec![], 100);
    assert_eq!(out.len(), 100);
    assert_eq!(out[0], 0);

    let phase = phasor.phase as f64 / PHASE_MODULUS as f64;
    let expected = (220.0 * 100.0 / 44100.0_f64) % 1.0;
    assert!((phase - expected).abs() < 1e-4);
    assert!((phase - 0.4989).abs() < 1e-4);
}

#[test]
fn phase_ramp_is_linear() {
    let mut phasor = Phasor::new("phasor");
    phasor.register(48000).unwrap();
    phasor.activate();

    let (tx, _rx) = bridge();
    let out = phasor.process_block(&tx, &vec![], 64);

    let step = ((INITIAL_FREQ_MHZ as u64) << 32) / (48000u64 * 1000);
    for (i, &p) in out.iter().enumerate() {
        let expected = ((i as u64) * step) % (1u64 << 32);
        assert_eq!(p as u64, expected);
    }
    assert_eq!(phasor.phase as u64, (64 * step) % (1u64 << 32));
}

#[test]
fn control_message_sets_frequency() {
    // a control-change message (status 176) on the frequency controller
    // with data byte 127 selects the top of the range: 400 Hz.
    let mut phasor = Phasor::new("phasor");
    phasor.register(44100).unwrap();
    phasor.activate();

    let (tx, rx) = bridge();
    let msg = midi([176, 0, 127], 3);
    let out = phasor.process_block(&tx, &vec![msg], 10);
    assert_eq!(out.len(), 10);
    assert_eq!(phasor.freq_mhz, 400_000);

    // the snapshot crossed the bridge unchanged
    let got = rx.try_recv().unwrap();
    assert_eq!(got.data, [176, 0, 127]);
    assert_eq!(got.len, 3);
    assert_eq!(got.time, 3);
}

#[test]
fn last_frequency_control_wins() {
    let mut phasor = Phasor::new("phasor");
    phasor.register(44100).unwrap();
    phasor.activate();

    let (tx, _rx) = bridge();
    let msgs = vec![
        midi([176, 0, 127], 0),
        midi([144, 0, 64], 1), // not a control change: ignored
        midi([176, 3, 10], 2), // another controller: ignored
        midi([176, 0, 64], 3),
    ];
    phasor.process_block(&tx, &msgs, 1);
    assert_eq!(phasor.freq_mhz, (64 * 400_000) / 127);
}

#[test]
fn frequency_map_endpoints() {
    assert_eq!(control_freq_mhz(0), 0);
    assert_eq!(control_freq_mhz(127), 400_000);
    assert_eq!(control_freq_mhz(64), 201_574);
}

#[test]
fn bridge_full_drops_silently() {
    let mut phasor = Phasor::new("phasor");
    phasor.register(44100).unwrap();
    phasor.activate();

    // a zero-capacity rendezvous channel with nobody receiving: every
    // post is dropped, and the block still renders
    let (tx, _rx) = std::sync::mpsc::sync_channel::<MidiCopy>(0);
    let msgs = vec![midi([176, 0, 1], 0), midi([176, 0, 2], 1)];
    let out = phasor.process_block(&tx, &msgs, 8);
    assert_eq!(out.len(), 8);
    assert_eq!(phasor.freq_mhz, (2 * 400_000) / 127);
}
