use oxhidifi::storage::formats::{
    fmt_channel, format_sample_rate_str, parse_int_list, raw_info_to_format_info, FormatInfo,
};

fn flac_24_96() -> FormatInfo {
    FormatInfo {
        formats: vec!["FLAC".to_string()],
        sample_rates: vec![96_000],
        bit_depths: vec![24],
        channels: vec![2],
    }
}

fn mixed_audio() -> FormatInfo {
    FormatInfo {
        formats: vec!["FLAC".to_string(), "MP3".to_string()],
        sample_rates: vec![44_100, 96_000],
        bit_depths: vec![16, 24],
        channels: vec![2],
    }
}

#[test]
fn format_summary_uniform_lossless() {
    assert_eq!(flac_24_96().summary(), "FLAC 24/96");
}

#[test]
fn format_summary_mixed() {
    assert_eq!(mixed_audio().summary(), "FLAC, MP3 16, 24/44.1, 96");
}

#[test]
fn format_summary_detailed_units_and_channels() {
    assert_eq!(
        flac_24_96().summary_detailed(),
        "FLAC \u{2022} 24-bit / 96.0 kHz \u{2022} Stereo"
    );
}

#[test]
fn format_is_uniform() {
    assert!(
        flac_24_96().is_uniform(),
        "single format properties are uniform"
    );
    assert!(
        !mixed_audio().is_uniform(),
        "mixed format properties are not uniform"
    );
    assert!(FormatInfo::default().is_uniform(), "empty info is uniform");
}

#[test]
fn format_sample_rate_strings() {
    assert_eq!(format_sample_rate_str(44_100), "44.1");
    assert_eq!(format_sample_rate_str(96_000), "96");
    assert_eq!(format_sample_rate_str(48_000), "48");
    assert_eq!(format_sample_rate_str(192_000), "192");
}

#[test]
fn summary_mixed_detailed_matches_documented_example() {
    assert_eq!(
        mixed_audio().summary_detailed(),
        "FLAC, MP3 \u{2022} 16, 24-bit / 44.1, 96.0 kHz \u{2022} Stereo"
    );
}

#[test]
fn summary_lossy_without_bit_depth() {
    let info = FormatInfo {
        formats: vec!["MP3".to_string()],
        sample_rates: vec![44_100],
        bit_depths: vec![],
        channels: vec![2],
    };
    assert_eq!(info.summary(), "MP3 44.1");
    assert_eq!(info.summary_detailed(), "MP3 \u{2022} 44.1 kHz \u{2022} Stereo");
}

#[test]
fn summary_of_empty_info_is_empty() {
    let info = FormatInfo::default();
    assert_eq!(info.summary(), "");
    assert_eq!(info.summary_detailed(), "");
    assert_eq!(info.formats_display(), "");
    assert_eq!(info.sample_rate_display(), "");
    assert_eq!(info.bit_depth_display(), "");
}

#[test]
fn summary_with_only_bit_depth() {
    let info = FormatInfo {
        formats: vec![],
        sample_rates: vec![],
        bit_depths: vec![16],
        channels: vec![],
    };
    assert_eq!(info.summary(), "16");
    assert_eq!(info.summary_detailed(), "16-bit");
}

#[test]
fn column_displays() {
    let info = mixed_audio();
    assert_eq!(info.formats_display(), "FLAC, MP3");
    assert_eq!(info.sample_rate_display(), "44.1, 96.0 kHz");
    assert_eq!(info.bit_depth_display(), "16, 24-bit");
}

#[test]
fn channel_labels() {
    assert_eq!(fmt_channel(1), "Mono");
    assert_eq!(fmt_channel(2), "Stereo");
    assert_eq!(fmt_channel(6), "6 ch");
    assert_eq!(fmt_channel(-3), "0 ch");
}

#[test]
fn sample_rate_text_matches_float_formatting() {
    let rates: Vec<i32> = vec![
        0, 1, 49, 50, 51, 149, 150, 250, 350, 450, 750, 1_250, 1_050, 11_025, 22_050, 32_000,
        44_100, 88_200, 176_400, 352_800, 705_600, 96_000, -44_100, -10, -250, -1_000,
        i32::MAX, i32::MIN, 2_147_483_000, 123_456_789,
    ];
    for hz in rates {
        let expected = if hz % 1000 == 0 {
            (hz / 1000).to_string()
        } else {
            format!("{:.1}", f64::from(hz) / 1000.0)
        };
        assert_eq!(format_sample_rate_str(hz), expected, "sample rate {hz}");
    }
    for hz in -3_000..3_000 {
        let info = FormatInfo {
            formats: vec![],
            sample_rates: vec![hz],
            bit_depths: vec![],
            channels: vec![],
        };
        let expected = format!("{:.1} kHz", f64::from(hz) / 1000.0);
        assert_eq!(info.sample_rate_display(), expected, "sample rate {hz}");
    }
}

#[test]
fn sample_rate_text_matches_float_formatting_across_range() {
    for hz in (i32::MIN..=i32::MAX).step_by(99_991) {
        let expected = if hz % 1000 == 0 {
            (hz / 1000).to_string()
        } else {
            format!("{:.1}", f64::from(hz) / 1000.0)
        };
        assert_eq!(format_sample_rate_str(hz), expected, "sample rate {hz}");
    }
    for base in [44_100, 48_000, 88_200, 96_000, 176_400, 192_000, 1_000_000_000] {
        for hz in base - 600..base + 600 {
            let expected = format!("{:.1}", f64::from(hz) / 1000.0);
            let info = FormatInfo {
                formats: vec![],
                sample_rates: vec![hz],
                bit_depths: vec![],
                channels: vec![],
            };
            assert_eq!(info.sample_rate_display(), format!("{expected} kHz"), "sample rate {hz}");
        }
    }
}

#[test]
fn parse_int_list_skips_bad_entries() {
    assert_eq!(parse_int_list("44100, 96000"), vec![44_100, 96_000]);
    assert_eq!(parse_int_list(" 16 ,x, 24,,-1"), vec![16, 24, -1]);
    assert_eq!(parse_int_list(""), Vec::<i32>::new());
    assert_eq!(parse_int_list("2147483648,+7,-2147483648"), vec![7, i32::MIN]);
}

#[test]
fn int_list_round_trip_on_values() {
    let v = vec![44_100, -3, 0, i32::MAX];
    let joined = v
        .iter()
        .map(|n| n.to_string())
        .collect::<Vec<_>>()
        .join(",");
    assert_eq!(parse_int_list(&joined), v);
}

#[test]
fn raw_info_builds_format_info() {
    let fi = raw_info_to_format_info(
        Some("FLAC, MP3".to_string()),
        Some("44100,96000"),
        None,
        Some("2"),
    );
    assert_eq!(fi.formats, vec!["FLAC".to_string(), "MP3".to_string()]);
    assert_eq!(fi.sample_rates, vec![44_100, 96_000]);
    assert!(fi.bit_depths.is_empty());
    assert_eq!(fi.channels, vec![2]);
    let none = raw_info_to_format_info(None, None, None, None);
    assert!(none.formats.is_empty() && none.sample_rates.is_empty());
}
