//! Hi-Fi metadata display: which technical fields show, and their labels.

use vstd::prelude::*;

use crate::storage::formats::{
    channel_count_label, channel_label, format_sample_rate_str, lemma_nat_text_digits, short_khz,
};
use crate::text::{copy_string, int_text, nat_text, push_int, push_nat};

verus! {

/// Whether to display the audio format.
#[derive(Debug, Clone, Copy, PartialEq, Eq, Structural)]
pub enum FormatDisplay {
    /// Hide format display.
    Hide,
    /// Show format display.
    Show,
}

/// Whether to display the sample rate.
#[derive(Debug, Clone, Copy, PartialEq, Eq, Structural)]
pub enum SampleRateDisplay {
    /// Hide sample rate display.
    Hide,
    /// Show sample rate display.
    Show,
}

/// Whether to display the bit depth.
#[derive(Debug, Clone, Copy, PartialEq, Eq, Structural)]
pub enum BitDepthDisplay {
    /// Hide bit depth display.
    Hide,
    /// Show bit depth display.
    Show,
}

/// Whether to display the channel count.
#[derive(Debug, Clone, Copy, PartialEq, Eq, Structural)]
pub enum ChannelsDisplay {
    /// Hide channels display.
    Hide,
    /// Show channels display.
    Show,
}

/// Layout mode for metadata display.
#[derive(Debug, Clone, Copy, PartialEq, Eq, Structural)]
pub enum LayoutMode {
    /// Compact single-line layout.
    Compact,
    /// Expanded multi-line layout.
    Expanded,
}

impl Default for FormatDisplay {
    fn default() -> (r: FormatDisplay)
        ensures
            r == FormatDisplay::Hide,
    {
        FormatDisplay::Hide
    }
}

impl Default for SampleRateDisplay {
    fn default() -> (r: SampleRateDisplay)
        ensures
            r == SampleRateDisplay::Hide,
    {
        SampleRateDisplay::Hide
    }
}

impl Default for BitDepthDisplay {
    fn default() -> (r: BitDepthDisplay)
        ensures
            r == BitDepthDisplay::Hide,
    {
        BitDepthDisplay::Hide
    }
}

impl Default for ChannelsDisplay {
    fn default() -> (r: ChannelsDisplay)
        ensures
            r == ChannelsDisplay::Hide,
    {
        ChannelsDisplay::Hide
    }
}

impl Default for LayoutMode {
    fn default() -> (r: LayoutMode)
        ensures
            r == LayoutMode::Expanded,
    {
        LayoutMode::Expanded
    }
}

/// Configuration for Hi-Fi metadata display options.
#[derive(Debug, Clone, Copy, PartialEq, Eq, Structural)]
pub struct HiFiMetadataConfig {
    /// Whether to show the audio format.
    pub show_format: FormatDisplay,
    /// Whether to show the sample rate.
    pub show_sample_rate: SampleRateDisplay,
    /// Whether to show the bit depth.
    pub show_bit_depth: BitDepthDisplay,
    /// Whether to show the channel count.
    pub show_channels: ChannelsDisplay,
    /// Whether to use compact layout.
    pub layout: LayoutMode,
}

impl Default for HiFiMetadataConfig {
    fn default() -> (c: HiFiMetadataConfig)
        ensures
            c == (HiFiMetadataConfig {
                show_format: FormatDisplay::Show,
                show_sample_rate: SampleRateDisplay::Show,
                show_bit_depth: BitDepthDisplay::Show,
                show_channels: ChannelsDisplay::Show,
                layout: LayoutMode::Expanded,
            }),
    {
        HiFiMetadataConfig {
            show_format: FormatDisplay::Show,
            show_sample_rate: SampleRateDisplay::Show,
            show_bit_depth: BitDepthDisplay::Show,
            show_channels: ChannelsDisplay::Show,
            layout: LayoutMode::Expanded,
        }
    }
}

/// Box arrangement of the labels: horizontal with 8 px spacing when compact,
/// vertical with 2 px spacing when expanded.
pub fn layout_arrangement(layout: LayoutMode) -> (r: (bool, i32))
    ensures
        layout == LayoutMode::Compact ==> r == (true, 8i32),
        layout == LayoutMode::Expanded ==> r == (false, 2i32),
{
    match layout {
        LayoutMode::Compact => (true, 8),
        LayoutMode::Expanded => (false, 2),
    }
}

/// The technical fields of a track that the display reads.
#[derive(Debug, Clone)]
pub struct TrackSpecs {
    /// Audio format (`FLAC`).
    pub format: String,
    /// Sample rate in Hz.
    pub sample_rate: i32,
    /// Bits per sample.
    pub bits_per_sample: u32,
    /// Number of channels.
    pub channels: u32,
}

/// Sample rate label: kHz from 1000 Hz on, else Hz.
pub open spec fn rate_label(hz: int) -> Seq<char> {
    if hz >= 1000 {
        short_khz(hz) + " kHz"@
    } else {
        int_text(hz) + " Hz"@
    }
}

/// The labels shown for a track under a configuration, in display order.
pub open spec fn metadata_labels(t: TrackSpecs, c: HiFiMetadataConfig) -> Seq<Seq<char>> {
    (if c.show_format == FormatDisplay::Show {
        seq![t.format@ + " "@]
    } else {
        Seq::empty()
    }) + (if c.show_sample_rate == SampleRateDisplay::Show {
        seq![rate_label(t.sample_rate as int)]
    } else {
        Seq::empty()
    }) + (if c.show_bit_depth == BitDepthDisplay::Show {
        seq![nat_text(t.bits_per_sample as nat) + "-bit "@]
    } else {
        Seq::empty()
    }) + (if c.show_channels == ChannelsDisplay::Show {
        seq![channel_label(t.channels as nat)]
    } else {
        Seq::empty()
    })
}

/// The labels to show for a track (none without a track).
pub fn metadata_label_texts(track: Option<&TrackSpecs>, config: HiFiMetadataConfig) -> (v: Vec<String>)
    ensures
        track.is_none() ==> v@.len() == 0,
        track matches Some(t) ==> crate::text::views(v@) == metadata_labels(*t, config),
{
    let mut v: Vec<String> = Vec::new();
    match track {
        None => v,
        Some(t) => {
            if config.show_format == FormatDisplay::Show {
                let mut s = copy_string(&t.format);
                s.append(" ");
                v.push(s);
            }
            if config.show_sample_rate == SampleRateDisplay::Show {
                let s = if t.sample_rate >= 1000 {
                    let mut s = format_sample_rate_str(t.sample_rate);
                    s.append(" kHz");
                    s
                } else {
                    let mut s = String::new();
                    push_int(&mut s, t.sample_rate as i64);
                    s.append(" Hz");
                    s
                };
                v.push(s);
            }
            if config.show_bit_depth == BitDepthDisplay::Show {
                let mut s = String::new();
                push_nat(&mut s, t.bits_per_sample as u64);
                s.append("-bit ");
                v.push(s);
            }
            if config.show_channels == ChannelsDisplay::Show {
                v.push(channel_count_label(t.channels));
            }
            assert(crate::text::views(v@) =~= metadata_labels(*t, config));
            v
        },
    }
}

/// How many of the four labels a configuration shows.
pub open spec fn shown_label_count(c: HiFiMetadataConfig) -> nat {
    (if c.show_format == FormatDisplay::Show { 1nat } else { 0nat })
        + (if c.show_sample_rate == SampleRateDisplay::Show { 1nat } else { 0nat })
        + (if c.show_bit_depth == BitDepthDisplay::Show { 1nat } else { 0nat })
        + (if c.show_channels == ChannelsDisplay::Show { 1nat } else { 0nat })
}

/// A track shows one label per field its configuration shows, in the order
/// format, sample rate, bit depth, channels: the format comes first when
/// shown, the channels last, named `Mono` for one channel, `Stereo` for two
/// and `<n> ch` otherwise.
pub proof fn hifi_labels_law(t: TrackSpecs, c: HiFiMetadataConfig)
    ensures
        metadata_labels(t, c).len() == shown_label_count(c),
        c.show_format == FormatDisplay::Show ==> metadata_labels(t, c)[0] == t.format@ + " "@,
        c.show_channels == ChannelsDisplay::Show ==> metadata_labels(t, c).last() == channel_label(t.channels as nat),
        channel_label(1) == "Mono"@,
        channel_label(2) == "Stereo"@,
        t.channels > 2 ==> channel_label(t.channels as nat) == nat_text(t.channels as nat) + " ch"@,
{
    reveal_strlit("Mono");
    reveal_strlit("Stereo");
    reveal_strlit(" ch");
    assert(channel_label(1) =~= "Mono"@);
    assert(channel_label(2) =~= "Stereo"@);
    assert(seq![' ', 'c', 'h'] =~= " ch"@);
}

/// The sample-rate label of a track, when shown (it follows the format label
/// when that is shown): rates of 1000 Hz and up are in kHz, lower rates in
/// Hz, and a whole number of kilohertz reads as that number (`192 kHz`).
pub proof fn sample_rate_label_law(t: TrackSpecs, c: HiFiMetadataConfig)
    requires
        c.show_sample_rate == SampleRateDisplay::Show,
    ensures
        ({
            let l = metadata_labels(t, c)[if c.show_format == FormatDisplay::Show { 1int } else { 0int }];
            &&& l.len() >= 4
            &&& l.subrange(l.len() - 2, l.len() as int) == "Hz"@
            &&& (l[l.len() - 3] == 'k') == (t.sample_rate >= 1000)
            &&& (t.sample_rate >= 1000 && t.sample_rate % 1000 == 0) ==> l == int_text(t.sample_rate / 1000) + " kHz"@
        }),
{
    reveal_strlit("Hz");
    reveal_strlit(" kHz");
    reveal_strlit(" Hz");
    let hz = t.sample_rate as int;
    let i: int = if c.show_format == FormatDisplay::Show { 1 } else { 0 };
    let rest = (if c.show_bit_depth == BitDepthDisplay::Show {
        seq![nat_text(t.bits_per_sample as nat) + "-bit "@]
    } else {
        Seq::empty()
    }) + (if c.show_channels == ChannelsDisplay::Show {
        seq![channel_label(t.channels as nat)]
    } else {
        Seq::empty()
    });
    let front: Seq<Seq<char>> = if c.show_format == FormatDisplay::Show {
        seq![t.format@ + " "@]
    } else {
        Seq::empty()
    };
    assert(metadata_labels(t, c) =~= front + seq![rate_label(hz)] + rest);
    assert(metadata_labels(t, c)[i] == rate_label(hz));
    let l = rate_label(hz);
    if hz >= 1000 {
        assert(l =~= short_khz(hz) + " kHz"@);
        assert(l[l.len() - 3] == 'k');
        assert(l.subrange(l.len() - 2, l.len() as int) =~= "Hz"@);
        if hz % 1000 == 0 {
            assert(short_khz(hz) == int_text(hz / 1000));
        }
    } else {
        let n = int_text(hz);
        assert(n.len() >= 1) by {
            if hz < 0 {
                assert(n =~= seq!['-'] + nat_text((-hz) as nat));
                lemma_nat_text_digits((-hz) as nat);
            } else {
                lemma_nat_text_digits(hz as nat);
            }
        }
        assert(l =~= n + " Hz"@);
        assert(l[l.len() - 3] == ' ');
        assert(l.subrange(l.len() - 2, l.len() as int) =~= "Hz"@);
    }
}

} // verus!
