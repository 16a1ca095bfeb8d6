use std::sync::Arc;

use gamercade_audio::algorithm::{Algorithm, ModulatedBy};
use gamercade_audio::engine::{Command, CommandError, SoundEngine, SoundRom};
use gamercade_audio::envelope::{ActiveState, EnvelopeDefinition, UNIT};
use gamercade_audio::fm::{FmDefinition, FmInstance, OperatorDefinition};
use gamercade_audio::oscillator::{WavetableOscillator, PHASE_ONE};
use gamercade_audio::pipeline::{
    frame_queue, produce_engine_frame, produce_engine_frame_when, produce_voice_frame,
    produce_voice_frame_when, FramePlayer, Produced,
};
use gamercade_audio::rollback::{after_frame, ROLLBACK_FRAMES};
use gamercade_audio::voice::Instrument;
use gamercade_audio::wavetable::{osci, WavetableDefinition, WavetableInstance};

fn stepped_table() -> Arc<WavetableDefinition> {
    Arc::new(WavetableDefinition {
        data: vec![0, 127, 255, 127],
        envelope: EnvelopeDefinition::constant(),
    })
}

fn refs(m: ModulatedBy) -> Vec<usize> {
    match m {
        ModulatedBy::Unmodulated => vec![],
        ModulatedBy::Single(a) => vec![a],
        ModulatedBy::Double(a, b) => vec![a, b],
        ModulatedBy::Triple(a, b, c) => vec![a, b, c],
    }
}

#[test]
fn phase_after_ticks_matches_frequency() {
    let mut o = WavetableOscillator::new(64, 44_100);
    o.set_frequency(440_000);
    let period = 64 * PHASE_ONE;
    let inc = o.increment;
    for k in 1..=1000u64 {
        o.tick();
        assert_eq!(o.phase, (k * inc) % period);
        let exact = (k as f64 * 64.0 * 440.0 / 44_100.0) % 64.0;
        let got = o.phase as f64 / PHASE_ONE as f64;
        let diff = (exact - got).abs();
        assert!(diff < 0.02 || (64.0 - diff) < 0.02, "k={} exact={} got={}", k, exact, got);
    }
}

#[test]
fn zero_frequency_holds_phase() {
    let mut o = WavetableOscillator::new(8, 48_000);
    o.set_frequency(0);
    for _ in 0..10 {
        assert_eq!(o.tick(), 0);
    }
    assert_eq!(o.phase, 0);
}

#[test]
fn tick_returns_phase_before_advance() {
    let mut o = WavetableOscillator::new(4, 4_000);
    o.set_frequency(1_000_000);
    assert_eq!(o.increment, PHASE_ONE);
    assert_eq!(o.tick(), 0);
    assert_eq!(o.tick(), PHASE_ONE);
    assert_eq!(o.tick(), 2 * PHASE_ONE);
    assert_eq!(o.tick(), 3 * PHASE_ONE);
    assert_eq!(o.tick(), 0);
}

#[test]
fn interpolated_voice_repeats_every_four_ticks() {
    let mut v = WavetableInstance::new(stepped_table(), 4_000);
    v.set_frequency(1_000_000);
    v.set_active(true);
    let expected = [0.0, 0.498, 1.0, 0.498];
    for round in 0..3 {
        for (k, e) in expected.iter().enumerate() {
            let s = v.tick();
            let got = s as f64 / UNIT as f64;
            assert!((got - e).abs() < 0.001, "round {} tick {}: {}", round, k, got);
        }
    }
}

#[test]
fn interpolation_halfway_between_entries() {
    let mut v = WavetableInstance::new(stepped_table(), 8_000);
    v.set_frequency(1_000_000);
    v.set_active(true);
    // Half a table step per tick: 0, mid(0,127), 127, mid(127,255), ...
    let got: Vec<u64> = v.tick_many(4);
    assert_eq!(got, vec![0, 16319, 32639, 49087]);
}

#[test]
fn trigger_clears_after_one_tick() {
    for def in [EnvelopeDefinition::constant(), EnvelopeDefinition::interesting()] {
        let table = Arc::new(WavetableDefinition { data: vec![10, 20, 30], envelope: def });
        let mut v = WavetableInstance::new(table, 44_100);
        v.set_frequency(440_000);
        v.trigger();
        assert_eq!(v.active, ActiveState::Trigger);
        v.tick();
        assert_eq!(v.active, ActiveState::Off);
        v.tick();
        assert_eq!(v.active, ActiveState::Off);
    }
}

#[test]
fn copied_voice_plays_the_same_samples() {
    let mut v = osci(44_100);
    v.set_frequency(440_000);
    v.trigger();
    v.tick_many(37);
    let mut c = v.duplicate();
    assert_eq!(v.tick_many(500), c.tick_many(500));
}

#[test]
fn set_active_and_release() {
    let mut v = osci(1_000);
    v.set_frequency(250_000);
    v.set_active(true);
    assert_eq!(v.active, ActiveState::On);
    let held = v.tick_many(200);
    assert!(held.iter().any(|s| *s > 0));
    v.set_active(false);
    assert_eq!(v.active, ActiveState::Off);
    let released = v.tick_many(400);
    assert_eq!(*released.last().unwrap(), 0);
    assert_eq!(v.envelope.level, 0);
}

#[test]
fn no_sound_voice_is_silent() {
    let mut v = WavetableInstance::no_sound(44_100);
    v.trigger();
    assert!(v.tick_many(100).iter().all(|s| *s == 0));
}

#[test]
fn envelope_rejects_sustain_above_full_scale() {
    assert!(EnvelopeDefinition::new(1, 2, UNIT + 1, 3).is_none());
    let d = EnvelopeDefinition::new(1, 2, UNIT, 3).unwrap();
    assert_eq!(d.sustain_level, UNIT);
}

#[test]
fn envelope_stays_within_unit_range() {
    let table = Arc::new(WavetableDefinition {
        data: vec![255, 255],
        envelope: EnvelopeDefinition::new(3, 5, UNIT / 3, 7).unwrap(),
    });
    let mut v = WavetableInstance::new(table, 1_000);
    v.set_active(true);
    let mut out = v.tick_many(20);
    v.set_active(false);
    out.extend(v.tick_many(20));
    assert!(out.iter().all(|s| *s <= UNIT));
    assert_eq!(out[2], UNIT);
    assert_eq!(out[19], UNIT / 3);
    assert_eq!(out[39], 0);
}

#[test]
fn algorithm_bounds_and_definitions() {
    assert_eq!(Algorithm::min(), 0);
    assert_eq!(Algorithm::max(), 11);
    assert!(Algorithm::try_new(12).is_none());
    assert_eq!(Algorithm::try_new(3), Some(Algorithm(3)));
    let serial = Algorithm(0).get_definition();
    assert_eq!(serial.carriers, [false, false, false, true]);
    assert_eq!(
        serial.modulators,
        [ModulatedBy::Single(0), ModulatedBy::Single(1), ModulatedBy::Single(2)]
    );
    let free = Algorithm(11).get_definition();
    assert_eq!(free.carriers, [true, true, true, true]);
    assert_eq!(free.modulators, [ModulatedBy::Unmodulated; 3]);
}

#[test]
fn every_algorithm_reads_earlier_operators_only() {
    for n in Algorithm::min()..=Algorithm::max() {
        let d = Algorithm(n).get_definition();
        for (j, m) in d.modulators.iter().enumerate() {
            for r in refs(*m) {
                assert!(r < j + 1, "algorithm {} operator {} reads {}", n, j + 1, r);
            }
        }
    }
}

fn quarter_operator() -> OperatorDefinition {
    OperatorDefinition {
        envelope: EnvelopeDefinition::new(0, 0, UNIT / 4, 0).unwrap(),
        frequency_multiplier: 1,
        modulation_depth: 0,
    }
}

#[test]
fn independent_carriers_sum_to_full_scale() {
    let def = Arc::new(FmDefinition {
        table: vec![255; 8],
        algorithm: Algorithm(11),
        operators: [quarter_operator(); 4],
    });
    let mut f = FmInstance::new(def, 8_000);
    f.set_frequency(440_000);
    f.set_active(true);
    f.tick();
    for _ in 0..10 {
        assert_eq!(f.tick(), UNIT);
    }
}

#[test]
fn serial_algorithm_sounds_only_last_operator() {
    let mut ops = [quarter_operator(); 4];
    ops[0].modulation_depth = 1000;
    let def = Arc::new(FmDefinition { table: vec![255; 8], algorithm: Algorithm(0), operators: ops });
    let mut f = FmInstance::new(def, 8_000);
    f.set_frequency(440_000);
    f.set_active(true);
    f.tick();
    assert_eq!(f.tick(), UNIT / 4);
}

#[test]
fn modulation_moves_the_read_position() {
    let table = vec![0, 255, 0, 255];
    let plain = OperatorDefinition {
        envelope: EnvelopeDefinition::constant(),
        frequency_multiplier: 0,
        modulation_depth: 0,
    };
    let mut ops = [plain; 4];
    ops[1].modulation_depth = PHASE_ONE;
    let carrier_only = Arc::new(FmDefinition { table: table.clone(), algorithm: Algorithm(7), operators: [plain; 4] });
    let modulated = Arc::new(FmDefinition { table, algorithm: Algorithm(7), operators: ops });
    let mut a = FmInstance::new(carrier_only, 8_000);
    let mut b = FmInstance::new(modulated, 8_000);
    a.set_active(true);
    b.set_active(true);
    // Operator 0 reads entry 0 (silent), so it cannot move operator 1; with
    // everything at phase zero the carriers read entry 0 too.
    assert_eq!(a.tick(), 0);
    assert_eq!(b.tick(), 0);
}

#[test]
fn fm_copy_replays() {
    let mut ops = [quarter_operator(); 4];
    ops[0].modulation_depth = 5000;
    ops[1].frequency_multiplier = 2;
    let data: Vec<u8> = (0..64u32).map(|i| (i * 4) as u8).collect();
    let def = Arc::new(FmDefinition { table: data, algorithm: Algorithm(1), operators: ops });
    let mut f = FmInstance::new(def, 22_050);
    f.set_frequency(330_000);
    f.trigger();
    for _ in 0..17 {
        f.tick();
    }
    let mut c = f.duplicate();
    for _ in 0..300 {
        assert_eq!(f.tick(), c.tick());
    }
}

fn rom() -> Arc<SoundRom> {
    Arc::new(SoundRom {
        instruments: vec![Instrument::Wavetable(stepped_table())],
        notes: vec![1_000_000, 2_000_000],
    })
}

#[test]
fn engine_plays_pressed_key() {
    let mut e = SoundEngine::new(4_000, &rom(), 2);
    assert_eq!(e.output_sample_rate(), 4_000);
    assert!(e
        .send(Command::PianoKeyPressed { note_index: 0, instrument_index: 0, channel: 1 })
        .is_ok());
    assert_eq!(e.render_frame(4), vec![0, 32639, 65536, 32639]);
    assert!(e.inbox.is_empty());
}

#[test]
fn engine_mixes_channels() {
    let mut e = SoundEngine::new(4_000, &rom(), 2);
    e.send(Command::PianoKeyPressed { note_index: 0, instrument_index: 0, channel: 0 }).unwrap();
    e.send(Command::PianoKeyPressed { note_index: 0, instrument_index: 0, channel: 1 }).unwrap();
    assert_eq!(e.render_frame(4), vec![0, 65278, 131072, 65278]);
}

#[test]
fn engine_refuses_missing_channel() {
    let mut e = SoundEngine::new(4_000, &rom(), 2);
    assert_eq!(
        e.send(Command::PianoKeyReleased { channel: 2 }),
        Err(CommandError::ChannelOutOfRange)
    );
    assert!(e.inbox.is_empty());
}

#[test]
fn engine_refuses_missing_instrument_or_note() {
    let mut e = SoundEngine::new(4_000, &rom(), 1);
    assert_eq!(
        e.send(Command::TriggerNote { note_index: 0, instrument_index: 9, channel: 0 }),
        Err(CommandError::UnknownInstrument)
    );
    assert_eq!(
        e.send(Command::TriggerNote { note_index: 9, instrument_index: 0, channel: 0 }),
        Err(CommandError::UnknownNote)
    );
    assert!(e.inbox.is_empty());
    assert_eq!(e.render_frame(3), vec![0, 0, 0]);
}

#[test]
fn note_is_checked_against_the_queued_rom() {
    let empty = Arc::new(SoundRom { instruments: vec![], notes: vec![] });
    let mut e = SoundEngine::new(4_000, &empty, 1);
    assert_eq!(
        e.send(Command::PianoKeyPressed { note_index: 0, instrument_index: 0, channel: 0 }),
        Err(CommandError::UnknownNote)
    );
    e.send(Command::SoundRomInstanceChanged(rom())).unwrap();
    assert!(e
        .send(Command::PianoKeyPressed { note_index: 0, instrument_index: 0, channel: 0 })
        .is_ok());
    assert_eq!(
        e.send(Command::SoundRomInstanceChanged(empty)),
        Err(CommandError::InvalidatesQueuedNote)
    );
    assert_eq!(e.inbox.len(), 2);
    assert_eq!(e.render_frame(4), vec![0, 32639, 65536, 32639]);
}

#[test]
fn later_command_on_a_channel_wins() {
    let mut e = SoundEngine::new(4_000, &rom(), 1);
    e.send(Command::PianoKeyPressed { note_index: 0, instrument_index: 0, channel: 0 }).unwrap();
    e.send(Command::PianoKeyPressed { note_index: 1, instrument_index: 0, channel: 0 }).unwrap();
    // Note 1 is twice as fast: entries 0, 2, 0, 2.
    assert_eq!(e.render_frame(4), vec![0, 65536, 0, 65536]);
}

#[test]
fn rom_change_is_applied_before_notes() {
    let flat = Arc::new(SoundRom {
        instruments: vec![Instrument::Wavetable(Arc::new(WavetableDefinition {
            data: vec![0, 0, 0, 0],
            envelope: EnvelopeDefinition::constant(),
        }))],
        notes: vec![1_000_000],
    });
    let mut e = SoundEngine::new(4_000, &flat, 1);
    // Queued before the change, played with the new ROM's instrument.
    e.send(Command::PianoKeyPressed { note_index: 0, instrument_index: 0, channel: 0 }).unwrap();
    e.send(Command::SoundRomInstanceChanged(rom())).unwrap();
    assert_eq!(e.render_frame(4), vec![0, 32639, 65536, 32639]);
}

#[test]
fn released_key_fades() {
    let mut e = SoundEngine::new(4_000, &rom(), 1);
    e.send(Command::PianoKeyPressed { note_index: 0, instrument_index: 0, channel: 0 }).unwrap();
    e.render_frame(4);
    e.send(Command::PianoKeyReleased { channel: 0 }).unwrap();
    assert_eq!(e.render_frame(4), vec![0, 0, 0, 0]);
}

#[test]
fn engine_snapshot_restore_replays() {
    let mut e = SoundEngine::new(4_000, &rom(), 2);
    e.send(Command::TriggerNote { note_index: 1, instrument_index: 0, channel: 0 }).unwrap();
    e.send(Command::PianoKeyPressed { note_index: 0, instrument_index: 0, channel: 1 }).unwrap();
    e.render_frame(5);
    let saved = e.snapshot();
    let first = e.render_frame(64);
    e.restore(saved);
    let again = e.render_frame(64);
    assert_eq!(first, again);
}

#[test]
fn third_frame_is_refused_and_queue_kept() {
    let (mut p, mut c) = frame_queue();
    assert!(!p.is_full());
    assert!(p.try_push(vec![1, 1, 1, 1]).is_ok());
    assert!(p.try_push(vec![2, 2, 2, 2]).is_ok());
    assert!(p.is_full());
    assert_eq!(p.try_push(vec![3, 3, 3, 3]), Err(vec![3, 3, 3, 3]));
    assert_eq!(c.pop(), Some(vec![1, 1, 1, 1]));
    assert_eq!(c.pop(), Some(vec![2, 2, 2, 2]));
    assert_eq!(c.pop(), None);
}

#[test]
fn player_swaps_frames_at_refill_points() {
    let (mut p, mut c) = frame_queue();
    p.try_push(vec![1, 1, 1, 1]).unwrap();
    p.try_push(vec![2, 2, 2, 2]).unwrap();
    let mut player = FramePlayer::new(4);
    let mut samples = Vec::new();
    let mut missed = 0;
    for _ in 0..12 {
        let s = player.play_from(&mut c);
        assert!(!s.starved);
        if s.no_next_frame {
            missed += 1;
        }
        samples.push(s.sample);
    }
    assert_eq!(samples, vec![0, 0, 0, 0, 1, 1, 1, 1, 2, 2, 2, 2]);
    assert_eq!(missed, 1);
}

#[test]
fn underrun_plays_silence_then_recovers() {
    let (mut p, mut c) = frame_queue();
    let mut player = FramePlayer::new(4);
    let first: Vec<_> = (0..4).map(|_| player.play_from(&mut c)).collect();
    assert!(first.iter().all(|s| s.sample == 0 && !s.starved));
    assert!(first[3].no_next_frame);
    let starved: Vec<_> = (0..4).map(|_| player.play_from(&mut c)).collect();
    assert!(starved.iter().all(|s| s.sample == 0 && s.starved));
    assert!(starved[3].no_next_frame);
    p.try_push(vec![5, 6, 7, 8]).unwrap();
    let waiting: Vec<_> = (0..4).map(|_| player.play_from(&mut c)).collect();
    assert!(waiting.iter().all(|s| s.sample == 0 && s.starved && !s.no_next_frame));
    let resumed: Vec<u64> = (0..4).map(|_| player.play_from(&mut c).sample).collect();
    assert_eq!(resumed, vec![5, 6, 7, 8]);
}

#[test]
fn play_reports_each_shortfall() {
    let mut player = FramePlayer::new(1);
    assert!(player.at_refill_point());
    let s = player.play(None);
    assert_eq!(s.sample, 0);
    assert!(!s.starved);
    assert!(s.no_next_frame);
    let s = player.play(None);
    assert!(s.starved);
    assert!(s.no_next_frame);
    let s = player.play(Some(vec![9]));
    assert!(s.starved);
    assert!(!s.no_next_frame);
    assert_eq!(player.play(None).sample, 9);
}

#[test]
fn producer_defers_when_queue_is_full() {
    let (mut p, mut c) = frame_queue();
    let mut v = WavetableInstance::new(stepped_table(), 4_000);
    v.set_frequency(1_000_000);
    v.set_active(true);
    assert!(matches!(produce_voice_frame(&mut p, &mut v, 4), Produced::Pushed));
    assert!(matches!(produce_voice_frame(&mut p, &mut v, 4), Produced::Pushed));
    let phase = v.oscillator.phase;
    assert!(matches!(produce_voice_frame(&mut p, &mut v, 4), Produced::Deferred));
    assert_eq!(v.oscillator.phase, phase);
    assert_eq!(c.pop(), Some(vec![0, 32639, 65536, 32639]));
    assert!(matches!(produce_voice_frame(&mut p, &mut v, 2), Produced::Pushed));
    assert_eq!(c.pop(), Some(vec![0, 32639, 65536, 32639]));
    assert_eq!(c.pop(), Some(vec![0, 32639]));
}

#[test]
fn engine_producer_renders_frames() {
    let (mut p, mut c) = frame_queue();
    let mut e = SoundEngine::new(4_000, &rom(), 1);
    let phase = e.data.channels.len();
    assert!(matches!(produce_engine_frame_when(true, &mut p, &mut e, 4), Produced::Deferred));
    assert_eq!(e.data.channels.len(), phase);
    e.send(Command::PianoKeyPressed { note_index: 0, instrument_index: 0, channel: 0 }).unwrap();
    assert!(matches!(produce_engine_frame(&mut p, &mut e, 4), Produced::Pushed));
    assert!(e.inbox.is_empty());
    assert_eq!(c.pop(), Some(vec![0, 32639, 65536, 32639]));
}

#[test]
fn producer_step_honours_full_answer() {
    let (mut p, mut c) = frame_queue();
    let mut v = WavetableInstance::new(stepped_table(), 4_000);
    v.set_frequency(1_000_000);
    v.set_active(true);
    assert_eq!(produce_voice_frame_when(true, &mut p, &mut v, 4), Produced::Deferred);
    assert_eq!(v.oscillator.phase, 0);
    assert_eq!(c.pop(), None);
    assert!(!p.is_full());
    assert_eq!(produce_voice_frame_when(false, &mut p, &mut v, 4), Produced::Pushed);
    assert_eq!(c.pop(), Some(vec![0, 32639, 65536, 32639]));
}

#[test]
fn rollback_restores_after_limit() {
    let mut v = WavetableInstance::new(stepped_table(), 4_000);
    v.set_frequency(1_000_000);
    v.set_active(true);
    let mut saved = v.duplicate();
    let mut count = 0;
    let mut frames = Vec::new();
    for _ in 0..4 {
        frames.push(v.tick_many(3));
        count = after_frame(&mut v, &mut saved, count, 2);
    }
    // Frames 1 and 2 refresh the copy; after frame 3 the voice goes back to
    // the copy taken after frame 2, so frame 4 repeats frame 3.
    assert_eq!(count, 1);
    assert_eq!(frames[3], frames[2]);
    assert_ne!(frames[1], frames[2]);
    assert_eq!(ROLLBACK_FRAMES, 60);
}
