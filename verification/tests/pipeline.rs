use audio_pipeline::config::select_channel_layout;
use audio_pipeline::config::ChannelLayoutChoice;
use audio_pipeline::config::PipelineError;
use audio_pipeline::config::StreamDescriptor;
use audio_pipeline::driver::replay;
use audio_pipeline::driver::PipelineDriver;
use audio_pipeline::driver::PipelineEvent;
use audio_pipeline::driver::PipelineState;
use audio_pipeline::frame::first_channel_samples;
use audio_pipeline::frame::AudioFrame;
use audio_pipeline::signal::classify_stream_error;
use audio_pipeline::signal::interpret_receive;
use audio_pipeline::signal::is_end_of_file_text;
use audio_pipeline::signal::DecoderState;
use audio_pipeline::signal::TerminationClass;

const EOF_SENTINEL: i32 = -1;
const NEED_MORE_INPUT: i32 = 11;

#[test]
fn mono_selection_keeps_every_sample() {
    let frame = AudioFrame { samples: vec![3, -1, 4, -1, 5], channels: 1 };
    assert_eq!(first_channel_samples(&frame), vec![3, -1, 4, -1, 5]);
}

#[test]
fn stereo_selection_keeps_only_left_channel() {
    // Interleaved stereo: left = 10, 20, 30; right = -10, -20, -30.
    let frame = AudioFrame { samples: vec![10, -10, 20, -20, 30, -30], channels: 2 };
    let left = first_channel_samples(&frame);
    assert_eq!(left, vec![10, 20, 30]);
    for s in &left {
        assert!(*s > 0, "a right-channel sample leaked into the output");
    }
}

#[test]
fn stereo_selection_of_odd_buffer_keeps_partial_group() {
    let frame = AudioFrame { samples: vec![1, 2, 3], channels: 2 };
    assert_eq!(first_channel_samples(&frame), vec![1, 3]);
}

#[test]
fn selection_of_empty_frame_is_empty() {
    let frame = AudioFrame { samples: vec![], channels: 2 };
    assert_eq!(first_channel_samples(&frame), Vec::<i16>::new());
}

#[test]
fn channel_layout_mono_and_stereo_are_accepted() {
    assert_eq!(select_channel_layout(1), Ok(ChannelLayoutChoice::Mono));
    assert_eq!(select_channel_layout(2), Ok(ChannelLayoutChoice::Stereo));
}

#[test]
fn channel_layout_other_counts_are_rejected() {
    assert_eq!(
        select_channel_layout(0),
        Err(PipelineError::UnsupportedChannelCount(0))
    );
    assert_eq!(
        select_channel_layout(3),
        Err(PipelineError::UnsupportedChannelCount(3))
    );
    assert_eq!(
        select_channel_layout(6),
        Err(PipelineError::UnsupportedChannelCount(6))
    );
}

#[test]
fn channel_layout_rejection_is_idempotent() {
    // The same unsupported count fails identically on every call.
    let first = select_channel_layout(5);
    let second = select_channel_layout(5);
    assert_eq!(first, second);
    assert_eq!(first, Err(PipelineError::UnsupportedChannelCount(5)));
}

#[test]
fn stream_descriptor_validation_matches_layout_selection() {
    let mono = StreamDescriptor { sample_rate: 44100, channels: 1 };
    assert_eq!(mono.validate(), Ok(ChannelLayoutChoice::Mono));
    let stereo = StreamDescriptor { sample_rate: 44100, channels: 2 };
    assert_eq!(stereo.validate(), Ok(ChannelLayoutChoice::Stereo));
    let surround = StreamDescriptor { sample_rate: 44100, channels: 6 };
    assert_eq!(
        surround.validate(),
        Err(PipelineError::UnsupportedChannelCount(6))
    );
}

#[test]
fn receive_outcomes_are_normalized() {
    assert_eq!(interpret_receive(None, NEED_MORE_INPUT), Ok(DecoderState::Ready));
    assert_eq!(
        interpret_receive(Some(NEED_MORE_INPUT), NEED_MORE_INPUT),
        Ok(DecoderState::NotReady)
    );
    assert_eq!(interpret_receive(Some(-5), NEED_MORE_INPUT), Err(-5));
}

#[test]
fn numeric_eof_shape_is_end_of_stream() {
    assert_eq!(
        classify_stream_error(EOF_SENTINEL, b"anything at all", EOF_SENTINEL),
        TerminationClass::EndOfStream
    );
    // Only negative codes are real errors: any non-negative code terminates.
    assert_eq!(
        classify_stream_error(0, b"", EOF_SENTINEL),
        TerminationClass::EndOfStream
    );
    assert_eq!(
        classify_stream_error(7, b"", EOF_SENTINEL),
        TerminationClass::EndOfStream
    );
}

#[test]
fn textual_eof_shape_is_end_of_stream() {
    assert_eq!(
        classify_stream_error(-541478725, b"End of file", EOF_SENTINEL),
        TerminationClass::EndOfStream
    );
    assert_eq!(
        classify_stream_error(-541478725, b"END OF FILE", EOF_SENTINEL),
        TerminationClass::EndOfStream
    );
    assert!(is_end_of_file_text(b"end of file"));
    assert!(!is_end_of_file_text(b"end of filx"));
    assert!(!is_end_of_file_text(b"end of file "));
}

#[test]
fn other_negative_codes_are_fatal_and_keep_their_code() {
    assert_eq!(
        classify_stream_error(-22, b"invalid argument", EOF_SENTINEL),
        TerminationClass::Fatal(PipelineError::FatalDecode(-22))
    );
    assert_eq!(
        classify_stream_error(-2, b"no such file or directory", EOF_SENTINEL),
        TerminationClass::Fatal(PipelineError::FatalDecode(-2))
    );
}

#[test]
fn driver_appends_frames_in_arrival_order() {
    let mut d = PipelineDriver::new();
    assert_eq!(d.current_state(), PipelineState::Running);
    assert!(d.step(PipelineEvent::Converted(AudioFrame { samples: vec![1, 2], channels: 1 })));
    assert!(d.step(PipelineEvent::NeedMoreInput));
    assert!(d.step(PipelineEvent::Converted(AudioFrame { samples: vec![3], channels: 1 })));
    assert!(d.step(PipelineEvent::EndOfStream));
    assert_eq!(d.current_state(), PipelineState::Draining);
    assert!(d.step(PipelineEvent::FlushFrame(AudioFrame { samples: vec![4, 5], channels: 1 })));
    assert!(d.step(PipelineEvent::FlushExhausted));
    assert!(d.is_done());
    assert_eq!(d.sample_count(), 5);
    assert_eq!(d.into_samples(), vec![1, 2, 3, 4, 5]);
}

#[test]
fn driver_selects_first_channel_of_stereo_frames() {
    let mut d = PipelineDriver::new();
    assert!(d.step(PipelineEvent::Converted(AudioFrame {
        samples: vec![100, -100, 200, -200],
        channels: 2,
    })));
    assert!(d.step(PipelineEvent::EndOfStream));
    assert!(d.step(PipelineEvent::FlushExhausted));
    assert_eq!(d.into_samples(), vec![100, 200]);
}

#[test]
fn driver_rejects_out_of_phase_events() {
    let mut d = PipelineDriver::new();
    // A flush frame before end of stream is out of phase and appends nothing.
    assert!(!d.step(PipelineEvent::FlushFrame(AudioFrame { samples: vec![9], channels: 1 })));
    assert!(!d.step(PipelineEvent::FlushExhausted));
    assert_eq!(d.sample_count(), 0);
    assert!(d.step(PipelineEvent::EndOfStream));
    // A converted frame after end of stream is out of phase too.
    assert!(!d.step(PipelineEvent::Converted(AudioFrame { samples: vec![9], channels: 1 })));
    assert!(!d.step(PipelineEvent::NeedMoreInput));
    assert_eq!(d.sample_count(), 0);
    assert_eq!(d.current_state(), PipelineState::Draining);
}

#[test]
fn done_is_terminal_and_silent() {
    let mut d = PipelineDriver::new();
    assert!(d.step(PipelineEvent::EndOfStream));
    assert!(d.step(PipelineEvent::FlushExhausted));
    assert!(d.is_done());
    // Exhaustion is stable: nothing is accepted or appended after it.
    assert!(!d.step(PipelineEvent::FlushFrame(AudioFrame { samples: vec![1], channels: 1 })));
    assert!(!d.step(PipelineEvent::FlushExhausted));
    assert!(!d.step(PipelineEvent::Converted(AudioFrame { samples: vec![1], channels: 1 })));
    assert!(!d.step(PipelineEvent::EndOfStream));
    assert!(d.is_done());
    assert_eq!(d.into_samples(), Vec::<i16>::new());
}

#[test]
fn replay_runs_a_whole_event_sequence() {
    let events = vec![
        PipelineEvent::NeedMoreInput,
        PipelineEvent::Converted(AudioFrame { samples: vec![1, -1, 2, -2], channels: 2 }),
        PipelineEvent::Converted(AudioFrame { samples: vec![3], channels: 1 }),
        PipelineEvent::EndOfStream,
        PipelineEvent::FlushFrame(AudioFrame { samples: vec![4], channels: 1 }),
        PipelineEvent::FlushExhausted,
    ];
    let d = replay(events);
    assert!(d.is_done());
    assert_eq!(d.into_samples(), vec![1, 2, 3, 4]);
}

#[test]
fn replay_of_empty_input_terminates_with_no_samples() {
    // A zero-packet input: end of stream at once, then an exhausted flush.
    let d = replay(vec![PipelineEvent::EndOfStream, PipelineEvent::FlushExhausted]);
    assert!(d.is_done());
    assert_eq!(d.sample_count(), 0);
}
