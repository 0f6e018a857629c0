use kopuz::output::{output_config_for_sample_rate, preferred_buffer_frames, OutputChoice, OutputRange};

fn range(channels: u16, format: u32, min: u32, max: u32) -> OutputRange {
    OutputRange { channels, sample_format: format, min_sample_rate: min, max_sample_rate: max }
}

#[test]
fn no_desired_rate_keeps_the_default() {
    let ranges = vec![range(2, 1, 44_100, 96_000)];
    assert_eq!(output_config_for_sample_rate(2, 1, &ranges, None), OutputChoice::Default);
}

#[test]
fn the_nearest_compatible_range_wins() {
    let ranges = vec![
        range(2, 1, 48_000, 48_000),
        range(6, 1, 44_100, 44_100),
        range(2, 2, 44_100, 44_100),
        range(2, 1, 32_000, 44_100),
        range(2, 1, 44_100, 44_100),
    ];
    assert_eq!(
        output_config_for_sample_rate(2, 1, &ranges, Some(44_100)),
        OutputChoice::Range { index: 3, sample_rate: 44_100 }
    );
    assert_eq!(
        output_config_for_sample_rate(2, 1, &ranges, Some(96_000)),
        OutputChoice::Range { index: 0, sample_rate: 48_000 }
    );
}

#[test]
fn without_a_compatible_range_the_default_stays() {
    let ranges = vec![range(6, 1, 44_100, 48_000)];
    assert_eq!(output_config_for_sample_rate(2, 1, &ranges, Some(44_100)), OutputChoice::Default);
}

#[test]
fn buffers_aim_for_512_frames() {
    assert_eq!(preferred_buffer_frames(Some((64, 4096))), Some(512));
    assert_eq!(preferred_buffer_frames(Some((1024, 4096))), Some(1024));
    assert_eq!(preferred_buffer_frames(Some((16, 256))), Some(256));
    assert_eq!(preferred_buffer_frames(None), None);
}
