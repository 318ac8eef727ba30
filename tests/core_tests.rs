use dirty::buffer::BuffVec;
use dirty::error::AudioError;
use dirty::orchestrator::{
    fix_stream_settings, BufferSize, CoreAnswer, DirtyCoreMessage, Registry, StreamSettings,
    UIMessage, BUFFER_SIZE, SAMPLE_RATE,
};
use dirty::streams::{
    render_output, InputSystem, InputSystemMessage, OutputAction, OutputSystem,
    OutputSystemMessage, StreamCommand,
};

#[test]
fn registry_answers_requests() {
    let registry: Registry<&str, u32> = Registry::new(vec!["a", "b"], 7);
    assert_eq!(registry.channel_count(), 2);
    assert_eq!(registry.answer(DirtyCoreMessage::GetOutputSystem), CoreAnswer::OutputSystem);
    assert_eq!(registry.answer(DirtyCoreMessage::GetChannel(1)), CoreAnswer::Channel(1));
    assert_eq!(
        registry.answer(DirtyCoreMessage::GetChannel(2)),
        CoreAnswer::Failed(AudioError::OutOfBounds)
    );
    assert_eq!(registry.answer(DirtyCoreMessage::NewChannel), CoreAnswer::Unsupported);
    assert_eq!(registry.answer(DirtyCoreMessage::NewBuffer), CoreAnswer::NotifyChannels);
}

#[test]
fn registry_channel_lookup() {
    let mut registry: Registry<&str, u32> = Registry::new(vec!["a", "b"], 7);
    assert_eq!(registry.get_channel(0), Ok(&"a"));
    assert_eq!(registry.get_channel(1), Ok(&"b"));
    assert_eq!(registry.get_channel(2), Err(AudioError::OutOfBounds));
    assert_eq!(*registry.output_system(), 7);
    registry.set_output_system(8);
    assert_eq!(*registry.output_system(), 8);
    assert_eq!(registry.get_channel(0), Ok(&"a"));
}

#[test]
fn stream_settings_are_fixed() {
    let proposed = StreamSettings { channels: 2, sample_rate: 44100, buffer_size: BufferSize::DeviceChosen };
    let fixed = fix_stream_settings(proposed);
    assert_eq!(fixed, StreamSettings { channels: 2, sample_rate: 48000, buffer_size: BufferSize::Fixed(16) });
    assert_eq!(SAMPLE_RATE, 48000);
    assert_eq!(BUFFER_SIZE, 16);
    assert_eq!(UIMessage::Quit, UIMessage::Quit);
}

#[test]
fn input_manager_opens_once() {
    let mut manager: InputSystem<u32> = InputSystem::new();
    assert!(manager.get_input_stream().is_none());
    assert!(matches!(manager.handle_message(InputSystemMessage::NewInputSource("mic")), StreamCommand::Open("mic")));
    manager.stream_opened::<AudioError>(Err(AudioError::StreamOpenFailed));
    assert!(manager.get_input_stream().is_none());
    assert!(matches!(manager.handle_message(InputSystemMessage::NewInputSource("mic")), StreamCommand::Open("mic")));
    manager.stream_opened::<AudioError>(Ok(5));
    assert_eq!(manager.get_input_stream(), Some(&5));
    assert!(matches!(manager.handle_message(InputSystemMessage::NewInputSource("line")), StreamCommand::KeepCurrent));
    assert!(matches!(manager.handle_message(InputSystemMessage::<&str>::Quit), StreamCommand::Stop));
}

#[test]
fn output_manager_accumulates_overdubs() {
    let mut output: OutputSystem<i32> = OutputSystem::new(3);
    assert_eq!(output.read_mix(), vec![0, 0, 0]);
    assert_eq!(output.handle_message(OutputSystemMessage::Overdub(vec![1, 2, 3])), OutputAction::Continue);
    assert_eq!(output.handle_message(OutputSystemMessage::Overdub(vec![10, 20, 30])), OutputAction::Continue);
    assert_eq!(output.read_mix(), vec![11, 22, 33]);
    assert_eq!(
        output.handle_message(OutputSystemMessage::Overdub(vec![1])),
        OutputAction::Rejected(AudioError::MismatchedBufferSize)
    );
    assert_eq!(output.read_mix(), vec![11, 22, 33]);
    assert_eq!(output.handle_message(OutputSystemMessage::NewInput), OutputAction::Continue);
    assert_eq!(output.handle_message(OutputSystemMessage::Quit), OutputAction::Stop);
}

#[test]
fn render_output_interlaces_and_scales() {
    let mut frame = BuffVec::deinterlace(&[1, 2, 3, 4, 5, 6], 2);
    assert_eq!(render_output(&mut frame, 2, 4), Some(vec![2, 4, 6, 8]));
    assert_eq!(frame.get_next(), None);
    let mut whole = BuffVec::deinterlace(&[1, 2, 3, 4], 2);
    assert_eq!(render_output(&mut whole, 1, 4), Some(vec![1, 2, 3, 4]));
}

#[test]
fn render_output_short_frame() {
    let mut frame = BuffVec::deinterlace(&[1, 2, 3, 4], 2);
    assert_eq!(render_output(&mut frame, 1, 5), None);
    let mut empty: BuffVec<i32> = BuffVec::new(2);
    assert_eq!(render_output(&mut empty, 1, 1), None);
    assert_eq!(render_output(&mut empty, 1, 0), Some(vec![]));
}
