use std::sync::Arc;

use dirty::buffer::BuffVec;
use dirty::channel::{apply_gain, Channel, ChannelAction, ChannelMessage, ChannelReply};
use dirty::orchestrator::{CoreAnswer, DirtyCoreMessage, Registry};
use dirty::routing::{AudioIO, PhysicalAudioIO};
use dirty::sample::Sample;

fn frame(data: &[i32], channels: usize) -> Arc<BuffVec<i32>> {
    Arc::new(BuffVec::deinterlace(data, channels))
}

fn forwarded(action: ChannelAction<i32>) -> Vec<i32> {
    match action {
        ChannelAction::Forward(samples) => samples,
        other => panic!("expected a forwarded batch, got {:?}", other),
    }
}

#[test]
fn gain_multiplies_each_sample() {
    assert_eq!(apply_gain(vec![1i32, -2, 3], 3), vec![3, -6, 9]);
    assert_eq!(apply_gain(vec![1000i16, -1000], 100), vec![i16::MAX, i16::MIN]);
}

#[test]
fn gain_zero_silences() {
    assert_eq!(apply_gain(vec![5i32, -7, i32::MAX], 0), vec![0, 0, 0]);
}

#[test]
fn gain_one_is_identity() {
    let s = vec![5i32, -7, i32::MAX, i32::MIN];
    assert_eq!(apply_gain(s.clone(), 1), s);
}

#[test]
fn sample_arithmetic_saturates() {
    assert_eq!(<i32 as Sample>::zero(), 0);
    assert_eq!(<i16 as Sample>::one(), 1);
    assert_eq!(i32::MAX.mix(1), i32::MAX);
    assert_eq!(i32::MIN.mix(-1), i32::MIN);
    assert_eq!(40i32.mix(2), 42);
    assert_eq!(i32::MIN.scale(-1), i32::MAX);
    assert_eq!(200i16.scale(-200), i16::MIN);
    assert_eq!(-6i16.scale(7), -42);
}

#[test]
fn new_channel_defaults() {
    let mut ch: Channel<i32, u32> = Channel::new();
    assert_eq!(ch.volume, 1);
    assert_eq!(ch.panning, 0);
    assert!(matches!(
        ch.handle_message(ChannelMessage::GetName),
        ChannelAction::Reply(ChannelReply::Name(n)) if n.is_empty()
    ));
    assert!(matches!(
        ch.handle_message(ChannelMessage::GetInput),
        ChannelAction::Reply(ChannelReply::Input(AudioIO::Disconnected))
    ));
    assert!(matches!(
        ch.handle_message(ChannelMessage::GetOutput),
        ChannelAction::Reply(ChannelReply::Output(AudioIO::Disconnected))
    ));
    let d: Channel<i32, u32> = Channel::default();
    assert_eq!(d.volume, 1);
}

#[test]
fn set_then_get_parameters() {
    let mut ch: Channel<i32, u32> = Channel::new();
    assert!(matches!(ch.handle_message(ChannelMessage::SetName("kick".to_string())), ChannelAction::Updated));
    assert!(matches!(ch.handle_message(ChannelMessage::SetVolume(4)), ChannelAction::Updated));
    assert!(matches!(ch.handle_message(ChannelMessage::SetPanning(-1)), ChannelAction::Updated));
    let stereo = AudioIO::Hardware(PhysicalAudioIO::Stereo(0, 1));
    assert!(matches!(ch.handle_message(ChannelMessage::SetOutput(stereo)), ChannelAction::Updated));
    assert!(matches!(
        ch.handle_message(ChannelMessage::GetName),
        ChannelAction::Reply(ChannelReply::Name(n)) if n == "kick"
    ));
    assert!(matches!(ch.handle_message(ChannelMessage::GetVolume), ChannelAction::Reply(ChannelReply::Volume(4))));
    assert!(matches!(ch.handle_message(ChannelMessage::GetPanning), ChannelAction::Reply(ChannelReply::Panning(-1))));
    assert!(matches!(
        ch.handle_message(ChannelMessage::GetOutput),
        ChannelAction::Reply(ChannelReply::Output(o)) if o == stereo
    ));
    assert_eq!(ch.volume, 4);
}

#[test]
fn quit_and_register_master() {
    let mut ch: Channel<i32, u32> = Channel::new();
    assert!(matches!(ch.handle_message(ChannelMessage::RegisterMaster), ChannelAction::Unsupported));
    assert!(matches!(ch.handle_message(ChannelMessage::Quit), ChannelAction::Stop));
}

#[test]
fn unrouted_input_is_a_no_op() {
    let mut ch: Channel<i32, u32> = Channel::new();
    ch.handle_message(ChannelMessage::SetOutputSystem(9));
    let action = ch.handle_message(ChannelMessage::NewBuffer(frame(&[1, 2, 3, 4], 2)));
    assert!(matches!(action, ChannelAction::Idle));
}

#[test]
fn mono_input_applies_gain_and_forwards() {
    let mut ch: Channel<i32, u32> = Channel::new();
    ch.handle_message(ChannelMessage::SetInput(AudioIO::Hardware(PhysicalAudioIO::Mono(1))));
    ch.handle_message(ChannelMessage::SetVolume(2));
    ch.handle_message(ChannelMessage::SetOutputSystem(9));
    let action = ch.handle_message(ChannelMessage::NewBuffer(frame(&[1, 2, 3, 4, 5, 6], 2)));
    assert_eq!(forwarded(action), vec![4, 8, 12]);
}

#[test]
fn stereo_input_reads_left_channel() {
    let mut ch: Channel<i32, u32> = Channel::new();
    ch.handle_message(ChannelMessage::SetInput(AudioIO::Hardware(PhysicalAudioIO::Stereo(2, 0))));
    ch.handle_message(ChannelMessage::SetOutputSystem(9));
    let action = ch.handle_message(ChannelMessage::NewBuffer(frame(&[1, 2, 3, 4, 5, 6], 3)));
    assert_eq!(forwarded(action), vec![3, 6]);
}

#[test]
fn input_past_frame_is_a_no_op() {
    let mut ch: Channel<i32, u32> = Channel::new();
    ch.handle_message(ChannelMessage::SetInput(AudioIO::Hardware(PhysicalAudioIO::Mono(5))));
    ch.handle_message(ChannelMessage::SetOutputSystem(9));
    let action = ch.handle_message(ChannelMessage::NewBuffer(frame(&[1, 2, 3, 4], 2)));
    assert!(matches!(action, ChannelAction::Idle));
}

#[test]
fn no_sink_drops_batch() {
    let mut ch: Channel<i32, u32> = Channel::new();
    ch.handle_message(ChannelMessage::SetInput(AudioIO::Hardware(PhysicalAudioIO::Mono(0))));
    let action = ch.handle_message(ChannelMessage::NewBuffer(frame(&[1, 2, 3, 4], 2)));
    assert!(matches!(action, ChannelAction::Idle));
}

#[test]
fn process_audio_selects_and_scales() {
    let mut ch: Channel<i32, u32> = Channel::new();
    ch.handle_message(ChannelMessage::SetInput(AudioIO::Hardware(PhysicalAudioIO::Mono(0))));
    ch.handle_message(ChannelMessage::SetVolume(0));
    let f = BuffVec::deinterlace(&[7, 8, 9, 10], 2);
    assert_eq!(ch.process_audio(&f), Some(vec![0, 0]));
}

#[test]
fn closed_sink_requests_new_one() {
    let mut ch: Channel<i32, u32> = Channel::new();
    ch.handle_message(ChannelMessage::SetInput(AudioIO::Hardware(PhysicalAudioIO::Mono(0))));
    ch.handle_message(ChannelMessage::SetOutputSystem(1));
    let batch = forwarded(ch.handle_message(ChannelMessage::NewBuffer(frame(&[1, 2, 3, 4], 2))));
    assert_eq!(batch, vec![1, 3]);
    assert_eq!(ch.output_system(), Some(&1));

    // The sink is closed: the batch is lost and the orchestrator is asked.
    let follow_up = ch.after_send(false);
    assert_eq!(follow_up, Some(DirtyCoreMessage::GetOutputSystem));
    let registry: Registry<u8, u32> = Registry::new(vec![0], 2);
    assert_eq!(registry.answer(follow_up.unwrap()), CoreAnswer::OutputSystem);
    let fresh = *registry.output_system();
    assert!(matches!(ch.handle_message(ChannelMessage::SetOutputSystem(fresh)), ChannelAction::Updated));
    assert_eq!(ch.output_system(), Some(&2));
    assert_eq!(ch.volume, 1);

    // The next frame goes to the new sink.
    let batch = forwarded(ch.handle_message(ChannelMessage::NewBuffer(frame(&[5, 6, 7, 8], 2))));
    assert_eq!(batch, vec![5, 7]);
}

#[test]
fn delivered_batch_needs_no_follow_up() {
    let ch: Channel<i32, u32> = Channel::new();
    assert_eq!(ch.after_send(true), None);
}
