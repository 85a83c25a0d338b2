use mimiq::audio::{
    advance_playbacks, apply_playback_command, check_wav_format, normalize_audio, AudioContextState, AudioError,
    PlaybackCommand, PlaybackCursor,
};

#[test]
fn mono_samples_are_doubled() {
    let frames = normalize_audio::<&str>(16, 1, vec![1, -2, 3], None).unwrap();
    assert_eq!(frames, vec![(1, 1), (-2, -2), (3, 3)]);
}

#[test]
fn eight_bit_samples_are_scaled_and_saturate() {
    let frames = normalize_audio::<&str>(8, 1, vec![1, -1, 300, -300], None).unwrap();
    assert_eq!(frames, vec![(127, 127), (-127, -127), (32767, 32767), (-32768, -32768)]);
}

#[test]
fn stereo_samples_are_paired() {
    let frames = normalize_audio::<&str>(16, 2, vec![1, 2, 3, 4], None).unwrap();
    assert_eq!(frames, vec![(1, 2), (3, 4)]);
    assert!(normalize_audio::<&str>(16, 2, vec![], None).unwrap().is_empty());
}

#[test]
fn normalize_reports_each_error() {
    assert!(matches!(
        normalize_audio::<&str>(24, 1, vec![1], None),
        Err(AudioError::UnexpectedBitdepth { found: 24 })
    ));
    assert!(matches!(
        normalize_audio::<&str>(16, 3, vec![1], None),
        Err(AudioError::UnexpectedChannelCount { found: 3 })
    ));
    assert!(matches!(
        normalize_audio::<&str>(16, 2, vec![1, 2, 3], None),
        Err(AudioError::UnexpectedWAVEOF)
    ));
    assert!(matches!(
        normalize_audio(16, 2, vec![1, 2, 3], Some("bad chunk")),
        Err(AudioError::WavParsingError("bad chunk"))
    ));
    assert!(matches!(
        normalize_audio(8, 1, vec![], Some("bad header")),
        Err(AudioError::WavParsingError("bad header"))
    ));
    // The format is judged before the samples.
    assert!(matches!(
        normalize_audio(12, 5, vec![1], Some("bad")),
        Err(AudioError::UnexpectedBitdepth { found: 12 })
    ));
}

#[test]
fn slots_count_up_and_reuse_given_back_ids() {
    let mut state = AudioContextState::new();
    assert!(matches!(state.alloc_buffer_id::<()>(), Ok(0)));
    assert!(matches!(state.alloc_buffer_id::<()>(), Ok(1)));
    assert!(matches!(state.alloc_buffer_id::<()>(), Ok(2)));
    state.release_buffer_id(1);
    state.release_buffer_id(0);
    assert!(matches!(state.alloc_buffer_id::<()>(), Ok(0)));
    assert!(matches!(state.alloc_buffer_id::<()>(), Ok(1)));
    assert!(matches!(state.alloc_buffer_id::<()>(), Ok(3)));
    assert!(matches!(state.alloc_playback_id::<()>(), Ok(0)));
}

#[test]
fn buffer_slots_run_out_one_before_capacity() {
    let mut state = AudioContextState::new();
    for expected in 0..71usize {
        assert!(matches!(state.alloc_buffer_id::<()>(), Ok(id) if id == expected));
    }
    assert!(matches!(state.alloc_buffer_id::<()>(), Err(AudioError::OutOfSoundBufferCapacity)));
    state.release_buffer_id(5);
    assert!(matches!(state.alloc_buffer_id::<()>(), Ok(5)));
}

#[test]
fn playback_slots_run_out_with_the_buffer_error() {
    let mut state = AudioContextState::new();
    for _ in 0..63 {
        assert!(state.alloc_playback_id::<()>().is_ok());
    }
    assert!(matches!(state.alloc_playback_id::<()>(), Err(AudioError::OutOfSoundBufferCapacity)));
}

#[test]
fn cursor_advances_loops_and_pauses() {
    let mut looping = PlaybackCursor::start(3, true);
    assert_eq!(looping.sample_index(2), Some(0));
    looping.advance(2);
    assert_eq!(looping.current_sample, 1);
    looping.advance(2);
    assert_eq!(looping.current_sample, 0);
    assert!(!looping.pause);

    let mut once = PlaybackCursor::start(3, false);
    once.advance(2);
    once.advance(2);
    assert!(once.pause);
    assert_eq!(once.current_sample, 1);
    assert_eq!(once.sample_index(2), None);
    once.advance(2);
    assert_eq!(once.current_sample, 1);

    once.restart();
    assert_eq!(once, PlaybackCursor { src: 3, looping: false, pause: false, current_sample: 0 });
    once.set_pause(true);
    assert!(once.pause);
    assert_eq!(PlaybackCursor::idle().sample_index(10), None);
}

#[test]
fn live_buffer_ids_stay_distinct_under_interleaving() {
    let mut state = AudioContextState::new();
    let mut live: Vec<usize> = Vec::new();
    let mut given_back: Vec<usize> = Vec::new();
    for step in 0..400usize {
        if step % 3 == 2 && !live.is_empty() {
            let id = live.remove((step * 7) % live.len());
            state.release_buffer_id(id);
            given_back.push(id);
        } else {
            match state.alloc_buffer_id::<()>() {
                Ok(id) => {
                    assert!(!live.contains(&id));
                    assert!(id < 71);
                    if let Some(last) = given_back.pop() {
                        assert_eq!(id, last);
                    }
                    live.push(id);
                }
                Err(e) => {
                    assert!(matches!(e, AudioError::OutOfSoundBufferCapacity));
                    assert!(given_back.is_empty());
                    assert_eq!(live.len(), 71);
                }
            }
        }
    }
}

#[test]
fn playback_commands_update_their_slot_only() {
    let mut cursors = vec![PlaybackCursor::idle(); 2];
    assert!(apply_playback_command(
        &mut cursors,
        PlaybackCommand::Start { playback_id: 1, src: 4, looping: true }
    ));
    assert_eq!(cursors[0], PlaybackCursor::idle());
    assert_eq!(cursors[1], PlaybackCursor { src: 4, looping: true, pause: false, current_sample: 0 });
    assert!(apply_playback_command(&mut cursors, PlaybackCommand::SetPause { playback_id: 1, pause: true }));
    assert!(cursors[1].pause);
    cursors[1].current_sample = 7;
    assert!(apply_playback_command(&mut cursors, PlaybackCommand::Restart { playback_id: 1 }));
    assert_eq!(cursors[1], PlaybackCursor { src: 4, looping: true, pause: false, current_sample: 0 });
    let before = cursors.clone();
    assert!(!apply_playback_command(&mut cursors, PlaybackCommand::Restart { playback_id: 2 }));
    assert!(!apply_playback_command(
        &mut cursors,
        PlaybackCommand::Start { playback_id: 9, src: 0, looping: false }
    ));
    assert_eq!(cursors, before);
}

#[test]
fn playbacks_advance_in_their_buffers() {
    let mut cursors = vec![
        PlaybackCursor { src: 0, looping: false, pause: false, current_sample: 0 },
        PlaybackCursor { src: 1, looping: true, pause: false, current_sample: 1 },
        PlaybackCursor { src: 5, looping: false, pause: false, current_sample: 3 },
        PlaybackCursor { src: 0, looping: false, pause: false, current_sample: 1 },
    ];
    advance_playbacks(&mut cursors, &[2, 2]);
    assert_eq!(cursors[0].current_sample, 1);
    assert_eq!(cursors[1].current_sample, 0);
    assert!(!cursors[1].pause);
    assert_eq!(cursors[2], PlaybackCursor { src: 5, looping: false, pause: false, current_sample: 3 });
    assert!(cursors[3].pause);
    assert_eq!(cursors[3].current_sample, 1);
}

#[test]
fn wav_formats_are_checked_bit_depth_first() {
    assert!(check_wav_format::<()>(8, 1).is_ok());
    assert!(check_wav_format::<()>(16, 2).is_ok());
    assert!(matches!(check_wav_format::<()>(24, 3), Err(AudioError::UnexpectedBitdepth { found: 24 })));
    assert!(matches!(check_wav_format::<()>(16, 6), Err(AudioError::UnexpectedChannelCount { found: 6 })));
}
