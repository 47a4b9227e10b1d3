use rack::au::ffi::{MidiBatch, RackAUMidiEvent, RackAUMidiEventType, MAX_BATCH_EVENTS};
use rack::midi::{MidiEvent, MidiEventKind};

#[test]
fn test_note_on_creation() {
    let event = MidiEvent::note_on(60, 100, 0, 0);
    assert_eq!(event.sample_offset, 0);
    match event.kind {
        MidiEventKind::NoteOn { note, velocity, channel } => {
            assert_eq!(note, 60);
            assert_eq!(velocity, 100);
            assert_eq!(channel, 0);
        }
        _ => panic!("Expected NoteOn event"),
    }
}

#[test]
fn test_note_off_creation() {
    let event = MidiEvent::note_off(60, 64, 0, 100);
    assert_eq!(event.sample_offset, 100);
    match event.kind {
        MidiEventKind::NoteOff { note, velocity, channel } => {
            assert_eq!(note, 60);
            assert_eq!(velocity, 64);
            assert_eq!(channel, 0);
        }
        _ => panic!("Expected NoteOff event"),
    }
}

#[test]
fn test_control_change_creation() {
    let event = MidiEvent::control_change(1, 64, 0, 0);
    match event.kind {
        MidiEventKind::ControlChange { controller, value, channel } => {
            assert_eq!(controller, 1);
            assert_eq!(value, 64);
            assert_eq!(channel, 0);
        }
        _ => panic!("Expected ControlChange event"),
    }
}

#[test]
fn test_program_change_creation() {
    let event = MidiEvent::program_change(5, 0, 0);
    match event.kind {
        MidiEventKind::ProgramChange { program, channel } => {
            assert_eq!(program, 5);
            assert_eq!(channel, 0);
        }
        _ => panic!("Expected ProgramChange event"),
    }
}

#[test]
fn test_value_clamping() {
    // Values are clamped to valid MIDI ranges
    let event = MidiEvent::note_on(200, 200, 20, 0);
    match event.kind {
        MidiEventKind::NoteOn { note, velocity, channel } => {
            assert_eq!(note, 127); // Clamped from 200
            assert_eq!(velocity, 127); // Clamped from 200
            assert_eq!(channel, 15); // Clamped from 20
        }
        _ => panic!("Expected NoteOn event"),
    }
}

#[test]
fn test_pitch_bend_center() {
    assert_eq!(MidiEvent::PITCH_BEND_CENTER, 8192);

    let event = MidiEvent::pitch_bend_center(0, 0);
    match event.kind {
        MidiEventKind::PitchBend { value, channel } => {
            assert_eq!(value, 8192);
            assert_eq!(channel, 0);
        }
        _ => panic!("Expected PitchBend event"),
    }

    // Manual creation is equivalent to the helper
    let manual = MidiEvent::pitch_bend(MidiEvent::PITCH_BEND_CENTER, 5, 100);
    let helper = MidiEvent::pitch_bend_center(5, 100);
    assert_eq!(manual.kind, helper.kind);
    assert_eq!(manual.sample_offset, helper.sample_offset);
}

#[test]
fn test_midi_value_clamping() {
    // MidiEvent helper functions clamp values correctly
    let event = MidiEvent::note_on(200, 200, 20, 0);

    match event.kind {
        MidiEventKind::NoteOn { note, velocity, channel } => {
            assert_eq!(note, 127, "Note should be clamped to 127");
            assert_eq!(velocity, 127, "Velocity should be clamped to 127");
            assert_eq!(channel, 15, "Channel should be clamped to 15");
        }
        _ => panic!("Expected NoteOn event"),
    }

    println!("✓ MIDI value clamping works correctly");
}

#[test]
fn every_constructor_clamps_its_arguments() {
    assert_eq!(
        MidiEvent::note_off(128, 255, 16, 7).kind,
        MidiEventKind::NoteOff { note: 127, velocity: 127, channel: 15 }
    );
    assert_eq!(
        MidiEvent::control_change(200, 130, 99, 0).kind,
        MidiEventKind::ControlChange { controller: 127, value: 127, channel: 15 }
    );
    assert_eq!(
        MidiEvent::program_change(255, 255, 0).kind,
        MidiEventKind::ProgramChange { program: 127, channel: 15 }
    );
    assert_eq!(
        MidiEvent::polyphonic_aftertouch(129, 128, 200, 0).kind,
        MidiEventKind::PolyphonicAftertouch { note: 127, pressure: 127, channel: 15 }
    );
    assert_eq!(
        MidiEvent::channel_aftertouch(250, 16, 0).kind,
        MidiEventKind::ChannelAftertouch { pressure: 127, channel: 15 }
    );
    assert_eq!(
        MidiEvent::pitch_bend(16384, 16, 0).kind,
        MidiEventKind::PitchBend { value: 16383, channel: 15 }
    );
    assert_eq!(
        MidiEvent::pitch_bend(65535, 3, 0).kind,
        MidiEventKind::PitchBend { value: 16383, channel: 3 }
    );
}

#[test]
fn values_at_the_limits_are_kept() {
    assert_eq!(
        MidiEvent::note_on(127, 0, 15, 9),
        MidiEvent { sample_offset: 9, kind: MidiEventKind::NoteOn { note: 127, velocity: 0, channel: 15 } }
    );
    assert_eq!(
        MidiEvent::pitch_bend(16383, 0, 0).kind,
        MidiEventKind::PitchBend { value: 16383, channel: 0 }
    );
    assert_eq!(MidiEvent::pitch_bend(0, 0, 0).kind, MidiEventKind::PitchBend { value: 0, channel: 0 });
}

#[test]
fn system_events_keep_their_offset() {
    assert_eq!(MidiEvent::timing_clock(1), MidiEvent { sample_offset: 1, kind: MidiEventKind::TimingClock });
    assert_eq!(MidiEvent::start(2), MidiEvent { sample_offset: 2, kind: MidiEventKind::Start });
    assert_eq!(MidiEvent::continue_playback(3), MidiEvent { sample_offset: 3, kind: MidiEventKind::Continue });
    assert_eq!(MidiEvent::stop(4), MidiEvent { sample_offset: 4, kind: MidiEventKind::Stop });
    assert_eq!(MidiEvent::active_sensing(5), MidiEvent { sample_offset: 5, kind: MidiEventKind::ActiveSensing });
    assert_eq!(MidiEvent::system_reset(6), MidiEvent { sample_offset: 6, kind: MidiEventKind::SystemReset });
}

fn wire(sample_offset: u32, status: u8, data1: u8, data2: u8, channel: u8) -> RackAUMidiEvent {
    RackAUMidiEvent { sample_offset, status, data1, data2, channel }
}

#[test]
fn channel_messages_encode_to_their_status_bytes() {
    assert_eq!(RackAUMidiEvent::from_event(&MidiEvent::note_on(60, 100, 2, 11)), wire(11, 0x90, 60, 100, 2));
    assert_eq!(RackAUMidiEvent::from_event(&MidiEvent::note_off(60, 64, 3, 0)), wire(0, 0x80, 60, 64, 3));
    assert_eq!(
        RackAUMidiEvent::from_event(&MidiEvent::polyphonic_aftertouch(61, 9, 4, 0)),
        wire(0, 0xA0, 61, 9, 4)
    );
    assert_eq!(RackAUMidiEvent::from_event(&MidiEvent::control_change(7, 127, 15, 0)), wire(0, 0xB0, 7, 127, 15));
    assert_eq!(RackAUMidiEvent::from_event(&MidiEvent::program_change(5, 1, 0)), wire(0, 0xC0, 5, 0, 1));
    assert_eq!(RackAUMidiEvent::from_event(&MidiEvent::channel_aftertouch(99, 0, 0)), wire(0, 0xD0, 99, 0, 0));
}

#[test]
fn pitch_bend_is_split_into_two_seven_bit_bytes() {
    assert_eq!(RackAUMidiEvent::from_event(&MidiEvent::pitch_bend(8192, 0, 0)), wire(0, 0xE0, 0, 64, 0));
    assert_eq!(RackAUMidiEvent::from_event(&MidiEvent::pitch_bend(16383, 1, 0)), wire(0, 0xE0, 127, 127, 1));
    assert_eq!(RackAUMidiEvent::from_event(&MidiEvent::pitch_bend(0, 2, 0)), wire(0, 0xE0, 0, 0, 2));
    assert_eq!(RackAUMidiEvent::from_event(&MidiEvent::pitch_bend(300, 2, 5)), wire(5, 0xE0, 44, 2, 2));
    for value in [0u16, 1, 127, 128, 129, 8191, 8192, 12345, 16383] {
        let encoded = RackAUMidiEvent::from_event(&MidiEvent::pitch_bend(value, 0, 0));
        assert!(encoded.data1 <= 127 && encoded.data2 <= 127);
        assert_eq!(u16::from(encoded.data1) + 128 * u16::from(encoded.data2), value);
    }
}

#[test]
fn system_messages_encode_without_channel_or_data() {
    assert_eq!(RackAUMidiEvent::from_event(&MidiEvent::timing_clock(3)), wire(3, 0xF8, 0, 0, 0));
    assert_eq!(RackAUMidiEvent::from_event(&MidiEvent::start(0)), wire(0, 0xFA, 0, 0, 0));
    assert_eq!(RackAUMidiEvent::from_event(&MidiEvent::continue_playback(0)), wire(0, 0xFB, 0, 0, 0));
    assert_eq!(RackAUMidiEvent::from_event(&MidiEvent::stop(0)), wire(0, 0xFC, 0, 0, 0));
    assert_eq!(RackAUMidiEvent::from_event(&MidiEvent::active_sensing(0)), wire(0, 0xFE, 0, 0, 0));
    assert_eq!(RackAUMidiEvent::from_event(&MidiEvent::system_reset(0)), wire(0, 0xFF, 0, 0, 0));
}

#[test]
fn events_built_by_hand_are_encoded_as_they_are() {
    let raw = MidiEvent { sample_offset: 1, kind: MidiEventKind::NoteOn { note: 200, velocity: 201, channel: 99 } };
    assert_eq!(RackAUMidiEvent::from_event(&raw), wire(1, 0x90, 200, 201, 99));
    let bend = MidiEvent { sample_offset: 0, kind: MidiEventKind::PitchBend { value: 0xFFFF, channel: 0 } };
    assert_eq!(RackAUMidiEvent::from_event(&bend), wire(0, 0xE0, 127, 127, 0));
}

#[test]
fn status_bytes_of_all_kinds() {
    assert_eq!(RackAUMidiEventType::NoteOn.status_byte(), 0x90);
    assert_eq!(RackAUMidiEventType::NoteOff.status_byte(), 0x80);
    assert_eq!(RackAUMidiEventType::PolyphonicAftertouch.status_byte(), 0xA0);
    assert_eq!(RackAUMidiEventType::ControlChange.status_byte(), 0xB0);
    assert_eq!(RackAUMidiEventType::ProgramChange.status_byte(), 0xC0);
    assert_eq!(RackAUMidiEventType::ChannelAftertouch.status_byte(), 0xD0);
    assert_eq!(RackAUMidiEventType::PitchBend.status_byte(), 0xE0);
    assert_eq!(RackAUMidiEventType::SystemExclusive.status_byte(), 0xF0);
    assert_eq!(RackAUMidiEventType::TimeCode.status_byte(), 0xF1);
    assert_eq!(RackAUMidiEventType::SongPosition.status_byte(), 0xF2);
    assert_eq!(RackAUMidiEventType::SongSelect.status_byte(), 0xF3);
    assert_eq!(RackAUMidiEventType::TuneRequest.status_byte(), 0xF6);
    assert_eq!(RackAUMidiEventType::TimingClock.status_byte(), 0xF8);
    assert_eq!(RackAUMidiEventType::Start.status_byte(), 0xFA);
    assert_eq!(RackAUMidiEventType::Continue.status_byte(), 0xFB);
    assert_eq!(RackAUMidiEventType::Stop.status_byte(), 0xFC);
    assert_eq!(RackAUMidiEventType::ActiveSensing.status_byte(), 0xFE);
    assert_eq!(RackAUMidiEventType::SystemReset.status_byte(), 0xFF);
}

#[test]
fn a_batch_keeps_the_order_of_its_events() {
    let events = vec![
        MidiEvent::note_on(60, 100, 0, 0),
        MidiEvent::timing_clock(10),
        MidiEvent::note_on(64, 100, 0, 128),
        MidiEvent::stop(200),
        MidiEvent::note_off(60, 0, 0, 256),
    ];
    let all = MidiBatch::encode(&events).expect("five events fit in a batch");
    assert_eq!(all.len(), 5);
    assert!(!all.is_empty());
    assert_eq!(
        all.events(),
        &[
            wire(0, 0x90, 60, 100, 0),
            wire(10, 0xF8, 0, 0, 0),
            wire(128, 0x90, 64, 100, 0),
            wire(200, 0xFC, 0, 0, 0),
            wire(256, 0x80, 60, 0, 0),
        ]
    );
}

#[test]
fn a_batch_grows_past_its_inline_capacity() {
    let events: Vec<MidiEvent> = (0..40u32).map(|i| MidiEvent::note_on((i % 128) as u8, 1, 0, i)).collect();
    let batch = MidiBatch::encode(&events).expect("forty events fit in a batch");
    assert_eq!(batch.len(), 40);
    for (i, event) in batch.events().iter().enumerate() {
        assert_eq!(*event, wire(i as u32, 0x90, i as u8, 1, 0));
    }
    let empty = MidiBatch::new();
    assert!(empty.is_empty());
    assert_eq!(empty.len(), 0);
    assert!(MidiBatch::encode(&[]).expect("no event fits in a batch").is_empty());
    assert_eq!(MAX_BATCH_EVENTS, 134_217_727);
}
