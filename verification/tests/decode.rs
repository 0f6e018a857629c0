use kopuz::decode::{convert_channels, layout_defaults, parse_opushead_channels, ring_capacity};
use kopuz::engine::{position_micros, same_config, EngineStatus, Phase, SinkConfig};
use std::sync::atomic::AtomicU64;
use std::sync::Arc;

fn opus_head(channels: u8) -> Vec<u8> {
    let mut v = b"OpusHead".to_vec();
    v.push(1);
    v.push(channels);
    v.extend_from_slice(&[0x38, 0x01, 0x80, 0xbb, 0, 0, 0, 0]);
    v
}

#[test]
fn reads_the_channel_count_of_an_opus_head() {
    assert_eq!(parse_opushead_channels(&opus_head(6)), Some(6));
    assert_eq!(parse_opushead_channels(b"OpusHead\x01"), None);
    assert_eq!(parse_opushead_channels(b"OpusTags\x01\x02"), None);
}

#[test]
fn missing_layouts_get_defaults() {
    let head = opus_head(1);
    let d = layout_defaults(false, false, Some(&head));
    assert_eq!(d.channels, Some(1));
    assert_eq!(d.sample_rate, Some(48_000));
    let d = layout_defaults(false, true, None);
    assert_eq!(d.channels, Some(2));
    assert_eq!(d.sample_rate, None);
    let d = layout_defaults(true, false, Some(&head));
    assert_eq!(d.channels, None);
    assert_eq!(d.sample_rate, None);
}

#[test]
fn the_ring_holds_whole_seconds_and_is_never_empty() {
    assert_eq!(ring_capacity(44_100, 2, 3), 264_600);
    assert_eq!(ring_capacity(0, 2, 3), 1);
}

#[test]
fn channels_are_copied_spread_or_silenced() {
    let stereo = [1, 2, 3, 4, 5];
    assert_eq!(convert_channels(&stereo, 2, 1, 0), vec![1, 3]);
    assert_eq!(convert_channels(&stereo, 2, 3, 0), vec![1, 2, 0, 3, 4, 0]);
    let mono = [7, 8];
    assert_eq!(convert_channels(&mono, 1, 2, 0), vec![7, 7, 8, 8]);
}

#[test]
fn positions_follow_the_played_samples() {
    assert_eq!(position_micros(1_000_000, 88_200, 2, 44_100), 2_000_000);
    assert_eq!(position_micros(5, 100, 0, 44_100), 5);
    assert_eq!(position_micros(u64::MAX, 88_200, 2, 44_100), u64::MAX);
    let played = Arc::new(AtomicU64::new(441_000));
    let status = EngineStatus::new(1, Phase::Playing, false, 3_000_000_000, 0, played, 2, 44_100);
    assert_eq!(status.position(), 3_000_000_000);
    let fine = EngineStatus::new(1, Phase::Playing, false, 1_500, 0, Arc::new(AtomicU64::new(2)), 1, 1_000_000);
    assert_eq!(fine.position(), 1_500);
    assert_eq!(fine.position_at(1), 1_000);
    assert_eq!(EngineStatus::idle().position(), 0);
    assert!(same_config(Some(SinkConfig { channels: 2, sample_rate: 48_000 }), SinkConfig { channels: 2, sample_rate: 48_000 }));
    assert!(!same_config(None, SinkConfig { channels: 2, sample_rate: 48_000 }));
}
