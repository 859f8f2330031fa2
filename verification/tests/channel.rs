use polysynth::channel::{event_channel, MAX_CHANNEL_CAPACITY};
use polysynth::common::{Param, SynthEvent, MAX_VOICES};
use polysynth::engine::SynthEngine;
use polysynth::fixed::ONE;
use polysynth::voice::VoiceState;

#[test]
fn channel_needs_a_capacity_within_its_limits() {
    assert!(event_channel(0).is_none());
    assert!(event_channel(1).is_some());
    assert!(event_channel(64).is_some());
    assert!(event_channel(MAX_CHANNEL_CAPACITY).is_some());
    assert!(event_channel(MAX_CHANNEL_CAPACITY + 1).is_none());
    assert!(event_channel(usize::MAX).is_none());
}

#[test]
fn events_come_out_in_the_order_they_went_in() {
    let (mut producer, mut consumer) = event_channel(8).unwrap();
    let mut engine = SynthEngine::new(44_100);
    // in this order the second note finds the first voice taken, and the
    // note-off finds the first note sounding
    assert_eq!(producer.send(SynthEvent::NoteOn(60, 261_625)), Ok(()));
    assert_eq!(producer.send(SynthEvent::NoteOn(61, 277_182)), Ok(()));
    assert_eq!(producer.send(SynthEvent::NoteOff(60)), Ok(()));
    assert_eq!(producer.send(SynthEvent::ParamChange(Param::LfoFreq, 5_000)), Ok(()));
    assert_eq!(producer.send(SynthEvent::ParamChange(Param::LfoFreq, 7_000)), Ok(()));
    assert_eq!(consumer.drain_into(&mut engine), 5);
    assert_eq!(engine.voice(0).note(), 60);
    assert_eq!(engine.voice(0).freq(), 261_625);
    assert_eq!(engine.voice(0).state(), VoiceState::Release);
    assert_eq!(engine.voice(1).note(), 61);
    assert_eq!(engine.voice(1).state(), VoiceState::Attack);
    assert_eq!(engine.voice(2).state(), VoiceState::Off);
    assert_eq!(engine.voice(0).lfo_freq(), 7_000);
}

#[test]
fn full_channel_hands_the_event_back() {
    let (mut producer, mut consumer) = event_channel(2).unwrap();
    let mut engine = SynthEngine::new(44_100);
    assert_eq!(producer.send(SynthEvent::NoteOn(60, 1)), Ok(()));
    assert_eq!(producer.send(SynthEvent::NoteOn(61, 2)), Ok(()));
    assert_eq!(producer.send(SynthEvent::NoteOn(62, 3)), Err(SynthEvent::NoteOn(62, 3)));
    assert_eq!(producer.send(SynthEvent::NoteOff(60)), Err(SynthEvent::NoteOff(60)));
    assert_eq!(consumer.drain_into(&mut engine), 2);
    // the two events that were handed back never arrived
    assert_eq!(engine.voice(0).note(), 60);
    assert_eq!(engine.voice(0).state(), VoiceState::Attack);
    assert_eq!(engine.voice(1).note(), 61);
    assert_eq!(engine.voice(2).state(), VoiceState::Off);
    assert_eq!(producer.send(SynthEvent::NoteOff(60)), Ok(()));
    assert_eq!(consumer.drain_into(&mut engine), 1);
    assert_eq!(engine.voice(0).state(), VoiceState::Release);
}

#[test]
fn midi_messages_are_decoded_and_sent() {
    let (mut producer, mut consumer) = event_channel(4).unwrap();
    let mut engine = SynthEngine::new(44_100);
    assert_eq!(
        producer.send_midi(&[0x90, 69, 100]),
        (Some(SynthEvent::NoteOn(69, 440_000)), true)
    );
    assert_eq!(producer.send_midi(&[0xf8, 0, 0]), (None, false));
    assert_eq!(producer.send_midi(&[0x90, 69]), (None, false));
    assert_eq!(consumer.drain_into(&mut engine), 1);
    assert_eq!(engine.voice(0).note(), 69);
    assert_eq!(engine.voice(0).freq(), 440_000);
    assert_eq!(engine.voice(0).state(), VoiceState::Attack);
    assert_eq!(producer.send_midi(&[0x80, 69, 0]), (Some(SynthEvent::NoteOff(69)), true));
    assert_eq!(consumer.drain_into(&mut engine), 1);
    assert_eq!(engine.voice(0).state(), VoiceState::Release);
}

#[test]
fn midi_event_is_lost_when_the_channel_is_full() {
    let (mut producer, mut consumer) = event_channel(1).unwrap();
    let mut engine = SynthEngine::new(44_100);
    assert_eq!(producer.send_midi(&[0xb0, 1, 127]), (Some(SynthEvent::ControlChange(1, 127)), true));
    assert_eq!(producer.send_midi(&[0x90, 60, 90]), (Some(SynthEvent::NoteOn(60, 261_625)), false));
    assert_eq!(consumer.drain_into(&mut engine), 1);
    assert_eq!(engine.voice(0).mod_wheel(), ONE);
    assert_eq!(engine.voice(0).state(), VoiceState::Off);
}

#[test]
fn drain_lets_the_engine_handle_every_pending_event_in_order() {
    let (mut producer, mut consumer) = event_channel(64).unwrap();
    let mut engine = SynthEngine::new(44_100);
    assert_eq!(consumer.drain_into(&mut engine), 0);
    producer.send(SynthEvent::NoteOn(60, 261_625)).unwrap();
    producer.send(SynthEvent::NoteOn(64, 329_627)).unwrap();
    producer.send(SynthEvent::NoteOff(60)).unwrap();
    producer.send(SynthEvent::ControlChange(1, 127)).unwrap();
    assert_eq!(consumer.drain_into(&mut engine), 4);
    assert_eq!(engine.voice(0).state(), VoiceState::Release);
    assert_eq!(engine.voice(0).note(), 60);
    assert_eq!(engine.voice(1).state(), VoiceState::Attack);
    assert_eq!(engine.voice(1).note(), 64);
    assert_eq!(engine.voice(2).state(), VoiceState::Off);
    for index in 0..MAX_VOICES {
        assert_eq!(engine.voice(index).mod_wheel(), ONE);
    }
    assert_eq!(consumer.drain_into(&mut engine), 0);
}

#[test]
fn drain_is_the_same_as_handling_the_events_one_by_one() {
    let events = [
        SynthEvent::NoteOn(60, 261_625),
        SynthEvent::NoteOn(62, 293_664),
        SynthEvent::ParamChange(Param::ModRange, 50_000),
        SynthEvent::NoteOff(62),
        SynthEvent::NoteOn(65, 349_228),
        SynthEvent::ControlChange(1, 33),
        SynthEvent::ControlChange(2, 99),
    ];
    let (mut producer, mut consumer) = event_channel(16).unwrap();
    let mut drained = SynthEngine::new(48_000);
    let mut direct = SynthEngine::new(48_000);
    for event in events {
        producer.send(event).unwrap();
        direct.handle_event(event);
    }
    assert_eq!(consumer.drain_into(&mut drained), events.len());
    for _ in 0..500 {
        assert_eq!(drained.next_sample(), direct.next_sample());
    }
    for index in 0..MAX_VOICES {
        assert_eq!(drained.voice(index).state(), direct.voice(index).state());
        assert_eq!(drained.voice(index).note(), direct.voice(index).note());
        assert_eq!(drained.voice(index).amplitude(), direct.voice(index).amplitude());
        assert_eq!(drained.voice(index).phase(), direct.voice(index).phase());
    }
}
