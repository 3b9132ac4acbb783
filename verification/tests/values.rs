use std::time::Duration;

use player::{AudioError, PlaybackState, PlayerError, SeekPosition, TrackId, Volume};

fn volume(v: f32) -> Result<Volume, PlayerError> {
    Volume::new(v.to_bits())
}

#[test]
fn volume_new_accepts_zero() {
    assert_eq!(f32::from_bits(volume(0.0).unwrap().value()), 0.0);
}

#[test]
fn volume_new_accepts_one() {
    assert_eq!(f32::from_bits(volume(1.0).unwrap().value()), 1.0);
}

#[test]
fn volume_new_accepts_midpoint() {
    assert_eq!(f32::from_bits(volume(0.5).unwrap().value()), 0.5);
}

#[test]
fn volume_new_rejects_value_above_one() {
    assert!(matches!(
        volume(1.1),
        Err(PlayerError::VolumeOutOfRange(_))
    ));
}

#[test]
fn volume_new_rejects_negative_value() {
    assert!(matches!(
        volume(-0.1),
        Err(PlayerError::VolumeOutOfRange(_))
    ));
}

#[test]
fn volume_silent_is_zero() {
    assert_eq!(f32::from_bits(Volume::silent().value()), 0.0);
}

#[test]
fn volume_full_is_one() {
    assert_eq!(f32::from_bits(Volume::full().value()), 1.0);
}

#[test]
fn volume_range_agrees_with_floating_point() {
    let samples = [
        0.0f32,
        -0.0,
        1.0,
        -1.0,
        f32::MIN_POSITIVE,
        -f32::MIN_POSITIVE,
        f32::from_bits(1),
        f32::from_bits(0x8000_0001),
        f32::from_bits(0x3f80_0001),
        f32::from_bits(0x3f7f_ffff),
        f32::MAX,
        f32::MIN,
        f32::INFINITY,
        f32::NEG_INFINITY,
        f32::NAN,
        2.0,
        0.25,
    ];
    for v in samples {
        assert_eq!(volume(v).is_ok(), (0.0..=1.0).contains(&v), "{v}");
    }
}

#[test]
fn volume_error_carries_the_refused_value() {
    assert_eq!(
        volume(1.5).unwrap_err(),
        PlayerError::VolumeOutOfRange(1.5f32.to_bits())
    );
}

#[test]
fn volume_order_agrees_with_floating_point() {
    let samples = [0.0f32, -0.0, f32::from_bits(1), f32::MIN_POSITIVE, 0.1, 0.5, 0.75, 1.0];
    for a in samples {
        for b in samples {
            let (va, vb) = (volume(a).unwrap(), volume(b).unwrap());
            assert_eq!(va == vb, a == b);
            assert_eq!(va < vb, a < b);
            assert_eq!(va.partial_cmp(&vb), a.partial_cmp(&b));
        }
    }
}

#[test]
fn seek_position_from_secs_round_trips() {
    assert_eq!(SeekPosition::from_secs(90).as_secs(), 90);
}

#[test]
fn seek_position_ordering_reflects_time() {
    assert!(SeekPosition::from_secs(10) < SeekPosition::from_secs(60));
}

#[test]
fn seek_position_order_is_total_and_counts_milliseconds() {
    let a = SeekPosition::from_millis(10_500);
    let b = SeekPosition::from_millis(10_501);
    assert!(a < b && b > a && a <= a);
    assert!(SeekPosition::from_secs(10) < a);
    assert_eq!(a.cmp(&b), std::cmp::Ordering::Less);
    assert_eq!(SeekPosition::from_secs(3), SeekPosition::from_millis(3_000));
}

#[test]
fn seek_position_converts_to_a_duration() {
    assert_eq!(
        SeekPosition::from_millis(1_234).as_duration(),
        Duration::from_millis(1_234)
    );
    assert_eq!(
        SeekPosition::from_secs(u64::MAX).as_duration(),
        Duration::from_secs(u64::MAX)
    );
    assert_eq!(SeekPosition::zero().as_duration(), Duration::ZERO);
    assert_eq!(SeekPosition::default(), SeekPosition::zero());
}

#[test]
fn seek_position_drops_the_milliseconds_of_whole_seconds() {
    assert_eq!(SeekPosition::from_millis(59_999).as_secs(), 59);
}

#[test]
fn play_head_is_cut_to_milliseconds() {
    let head = Duration::new(3, 987_654_321);
    assert_eq!(
        SeekPosition::from_play_head(head),
        SeekPosition::from_millis(3_987)
    );
}

#[test]
fn play_head_keeps_the_low_bits_of_an_overlong_position() {
    let head = Duration::from_secs(u64::MAX);
    assert_eq!(
        SeekPosition::from_play_head(head),
        SeekPosition::from_millis(head.as_millis() as u64)
    );
}

#[test]
fn playback_state_stopped_is_stopped() {
    assert!(PlaybackState::Stopped.is_stopped());
}

#[test]
fn playback_state_playing_is_not_stopped() {
    let state = PlaybackState::Playing {
        track: TrackId::new(1),
        position: SeekPosition::zero(),
    };
    assert!(!state.is_stopped());
    assert!(state.is_playing());
}

#[test]
fn playback_state_stopped_has_no_current_track() {
    assert_eq!(PlaybackState::Stopped.current_track(), None);
}

#[test]
fn playback_state_playing_exposes_current_track() {
    let id = TrackId::new(7);
    let state = PlaybackState::Playing {
        track: id,
        position: SeekPosition::zero(),
    };
    assert_eq!(state.current_track(), Some(id));
}

#[test]
fn playback_state_paused_exposes_current_track() {
    let id = TrackId::new(3);
    let state = PlaybackState::Paused {
        track: id,
        position: SeekPosition::from_secs(42),
    };
    assert_eq!(state.current_track(), Some(id));
}

#[test]
fn playback_state_stopped_has_no_position() {
    assert_eq!(PlaybackState::Stopped.position(), None);
}

#[test]
fn playback_state_playing_exposes_position() {
    let state = PlaybackState::Playing {
        track: TrackId::new(1),
        position: SeekPosition::from_secs(12),
    };
    assert_eq!(state.position(), Some(SeekPosition::from_secs(12)));
}

#[test]
fn playback_state_paused_exposes_position() {
    let state = PlaybackState::Paused {
        track: TrackId::new(3),
        position: SeekPosition::from_secs(30),
    };
    assert_eq!(state.position(), Some(SeekPosition::from_secs(30)));
}

#[test]
fn playback_state_failed_is_not_stopped() {
    let state = PlaybackState::Failed {
        track: TrackId::new(1),
        error: "corrupt file".into(),
    };
    assert!(!state.is_stopped());
}

#[test]
fn playback_state_failed_is_not_playing() {
    let state = PlaybackState::Failed {
        track: TrackId::new(1),
        error: "corrupt file".into(),
    };
    assert!(!state.is_playing());
}

#[test]
fn playback_state_failed_exposes_current_track() {
    let id = TrackId::new(5);
    let state = PlaybackState::Failed {
        track: id,
        error: "missing file".into(),
    };
    assert_eq!(state.current_track(), Some(id));
}

#[test]
fn playback_state_failed_has_no_position() {
    let state = PlaybackState::Failed {
        track: TrackId::new(1),
        error: "missing file".into(),
    };
    assert_eq!(state.position(), None);
}

#[test]
fn audio_errors_are_described() {
    assert_eq!(
        AudioError::Device("no output".into()).message(),
        "failed to open audio output: no output"
    );
    assert_eq!(
        AudioError::Decode("track.flac".into(), "corrupt file".into()).message(),
        "failed to decode track.flac: corrupt file"
    );
}

#[test]
fn positions_compare_as_their_durations_do() {
    let positions = [
        SeekPosition::zero(),
        SeekPosition::from_millis(1),
        SeekPosition::from_millis(1_000),
        SeekPosition::from_secs(1),
        SeekPosition::from_secs(2),
    ];
    for a in positions {
        assert!(SeekPosition::zero() <= a);
        assert_eq!(a.as_secs(), a.as_duration().as_secs());
        for b in positions {
            assert_eq!(a == b, a.as_duration() == b.as_duration());
            assert_eq!(a < b, a.as_duration() < b.as_duration());
        }
    }
    assert_eq!(SeekPosition::zero(), SeekPosition::from_secs(0));
    assert_eq!(SeekPosition::zero(), SeekPosition::from_millis(0));
}

#[test]
fn volume_errors_are_equal_as_the_refused_values_are() {
    let samples = [
        0.0f32,
        -0.0,
        1.5,
        -1.5,
        f32::from_bits(1),
        f32::from_bits(0x8000_0001),
        f32::MAX,
        f32::MIN,
        f32::INFINITY,
        f32::NEG_INFINITY,
        f32::NAN,
        -f32::NAN,
    ];
    for a in samples {
        for b in samples {
            let ea = PlayerError::VolumeOutOfRange(a.to_bits());
            let eb = PlayerError::VolumeOutOfRange(b.to_bits());
            assert_eq!(ea == eb, a == b, "{a} {b}");
        }
    }
}
