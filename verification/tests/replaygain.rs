use kopuz::replaygain::{
    find_tag, gain_text, parse_i32, r128_gain_q78, tag_text, GainTag, StandardGainTag,
    R128_REFERENCE_OFFSET_DB,
};

fn parse_gain_db(value: &str) -> Option<f32> {
    gain_text(value).parse::<f32>().ok().filter(|gain| gain.is_finite())
}

fn std_tag(key: &str, value: &str, standard: StandardGainTag) -> GainTag {
    GainTag { standard: Some(standard), key: key.to_string(), value: Some(value.to_string()) }
}

fn raw_tag(key: &str, value: &str) -> GainTag {
    GainTag { standard: None, key: key.to_string(), value: Some(value.to_string()) }
}

fn gain(tags: &Vec<GainTag>, standard: StandardGainTag, key: &str) -> Option<f32> {
    tag_text(tags, Some(standard), key).as_deref().and_then(parse_gain_db)
}

fn peak(tags: &Vec<GainTag>, standard: StandardGainTag, key: &str) -> Option<f32> {
    tag_text(tags, Some(standard), key)
        .and_then(|value| value.trim().parse::<f32>().ok())
        .filter(|peak| peak.is_finite() && *peak > 0.0)
}

fn r128_db(tags: &Vec<GainTag>, key: &str) -> Option<f32> {
    r128_gain_q78(tags, key).map(|q78| q78 as f32 / 256.0 + R128_REFERENCE_OFFSET_DB as f32)
}

#[test]
fn parses_suffixed_and_bare_gains() {
    assert_eq!(parse_gain_db("-7.06 dB"), Some(-7.06));
    assert_eq!(parse_gain_db("+3.2 DB"), Some(3.2));
    assert_eq!(parse_gain_db("\"-1.5\""), Some(-1.5));
    assert_eq!(parse_gain_db("not a gain"), None);
}

#[test]
fn reads_track_and_album_values() {
    let tags = vec![
        std_tag("REPLAYGAIN_TRACK_GAIN", "-7.06 dB", StandardGainTag::TrackGain),
        std_tag("REPLAYGAIN_TRACK_PEAK", "0.98", StandardGainTag::TrackPeak),
        raw_tag("REPLAYGAIN_ALBUM_GAIN", "-5.00 dB"),
    ];
    assert_eq!(gain(&tags, StandardGainTag::TrackGain, "REPLAYGAIN_TRACK_GAIN"), Some(-7.06));
    assert_eq!(peak(&tags, StandardGainTag::TrackPeak, "REPLAYGAIN_TRACK_PEAK"), Some(0.98));
    assert_eq!(gain(&tags, StandardGainTag::AlbumGain, "REPLAYGAIN_ALBUM_GAIN"), Some(-5.0));
    assert_eq!(peak(&tags, StandardGainTag::AlbumPeak, "REPLAYGAIN_ALBUM_PEAK"), None);
}

#[test]
fn falls_back_to_r128_with_the_reference_offset() {
    let tags = vec![raw_tag("R128_TRACK_GAIN", "-1280")];
    assert_eq!(gain(&tags, StandardGainTag::TrackGain, "REPLAYGAIN_TRACK_GAIN"), None);
    assert_eq!(r128_db(&tags, "R128_TRACK_GAIN"), Some(0.0));
}

#[test]
fn gain_text_strips_quotes_units_and_space() {
    assert_eq!(gain_text("  \"-7.06 dB\"  "), "-7.06");
    assert_eq!(gain_text("3.2db"), "3.2");
    assert_eq!(gain_text("4"), "4");
}

#[test]
fn the_standard_tag_wins_over_the_raw_key() {
    let tags = vec![
        raw_tag("replaygain_track_gain", "-1 dB"),
        std_tag("TXXX", "-2 dB", StandardGainTag::TrackGain),
    ];
    assert_eq!(find_tag(&tags, Some(StandardGainTag::TrackGain), "REPLAYGAIN_TRACK_GAIN"), Some(1));
    assert_eq!(find_tag(&tags, None, "REPLAYGAIN_TRACK_GAIN"), Some(0));
    assert_eq!(find_tag(&tags, None, "R128_TRACK_GAIN"), None);
}

#[test]
fn integers_parse_with_sign_and_bounds() {
    assert_eq!(parse_i32("-1280"), Some(-1280));
    assert_eq!(parse_i32("+12"), Some(12));
    assert_eq!(parse_i32("2147483647"), Some(i32::MAX));
    assert_eq!(parse_i32("2147483648"), None);
    assert_eq!(parse_i32(""), None);
    assert_eq!(parse_i32("1.5"), None);
}
