//! Player bar texts: track time, and the audio quality line.

use vstd::prelude::*;

use crate::storage::formats::{khz_text, short_khz};
use crate::storage::formats::lemma_digit_char_facts;
use crate::text::{digit_value, is_digit, nat_text, pad2_text, push_nat};

verus! {

/// Clock text of a number of seconds: minutes, a colon, two-digit seconds.
pub open spec fn clock(secs: nat) -> Seq<char> {
    nat_text(secs / 60) + seq![':'] + pad2_text(secs % 60)
}

/// Clock text (`1:07`) of a duration or position in whole seconds.
pub fn clock_text(secs: u32) -> (s: String)
    ensures
        s@ == clock(secs as nat),
{
    let mut s = String::new();
    push_nat(&mut s, (secs / 60) as u64);
    crate::text::push_char(&mut s, ':');
    let r = secs % 60;
    if r < 10 {
        crate::text::push_char(&mut s, '0');
    }
    push_nat(&mut s, r as u64);
    proof {
        if r < 10 {
            assert(nat_text(r as nat) =~= seq![crate::text::digit_char(r as int)]);
        }
    }
    assert(s@ =~= clock(secs as nat));
    s
}

/// A clock text is the whole minutes, a colon, and exactly two decimal
/// digits whose value is the seconds past the minute (`70` reads `1:10`,
/// `65` reads `1:05`).
pub proof fn clock_law(secs: nat)
    ensures
        clock(secs).len() == nat_text(secs / 60).len() + 3,
        clock(secs).subrange(0, nat_text(secs / 60).len() as int) == nat_text(secs / 60),
        clock(secs)[nat_text(secs / 60).len() as int] == ':',
        is_digit(clock(secs)[clock(secs).len() - 2]),
        is_digit(clock(secs)[clock(secs).len() - 1]),
        10 * digit_value(clock(secs)[clock(secs).len() - 2]) + digit_value(clock(secs)[clock(secs).len() - 1])
            == secs % 60,
{
    let m = nat_text(secs / 60);
    let r = secs % 60;
    let c = clock(secs);
    let p = pad2_text(r);
    if r < 10 {
        lemma_digit_char_facts(0);
        lemma_digit_char_facts(r as int);
        assert(p =~= seq!['0', crate::text::digit_char(r as int)]);
    } else {
        let hi = r / 10;
        let lo = r % 10;
        lemma_digit_char_facts(hi as int);
        lemma_digit_char_facts(lo as int);
        assert(nat_text(hi) =~= seq![crate::text::digit_char(hi as int)]);
        assert(p =~= seq![crate::text::digit_char(hi as int), crate::text::digit_char(lo as int)]);
    }
    assert(c =~= m + seq![':'] + p);
    assert(c.subrange(0, m.len() as int) =~= m);
    assert(c[c.len() - 2] == p[0]);
    assert(c[c.len() - 1] == p[1]);
}


/// The end-time label: the track's duration, or `0:00` without one.
pub fn duration_label(duration: Option<u32>) -> (s: String)
    ensures
        match duration {
            Some(d) => s@ == clock(d as nat),
            None => s@ == "0:00"@,
        },
{
    match duration {
        Some(d) => clock_text(d),
        None => String::from_str("0:00"),
    }
}

/// Names what `str::to_uppercase` gives for a text.
pub uninterp spec fn upper_text(s: Seq<char>) -> Seq<char>;

/// Unicode upper case of a text (`str::to_uppercase`); its result is the one
/// `upper_text` names.
#[verifier::external_body]
fn to_upper(s: &str) -> (r: String)
    ensures
        r@ == upper_text(s@),
{
    s.to_uppercase()
}

/// Bit depth and sample rate part of the quality line.
pub open spec fn depth_rate_text(bit_depth: Option<u32>, sample_rate: Option<u32>) -> Seq<char> {
    match (bit_depth, sample_rate) {
        (Some(b), Some(f)) => nat_text(b as nat) + "-Bit/"@ + short_khz(f as int) + " kHz"@,
        (Some(b), None) => nat_text(b as nat) + "-Bit"@,
        (None, Some(f)) => short_khz(f as int) + " kHz"@,
        (None, None) => Seq::empty(),
    }
}

/// The quality line: bit depth and rate, then the upper-cased format, with
/// ` · ` between them when both are present.
pub open spec fn quality_line_text(bit_depth: Option<u32>, sample_rate: Option<u32>, format: Option<Seq<char>>) -> Seq<char> {
    let dr = depth_rate_text(bit_depth, sample_rate);
    let f = match format {
        Some(t) => upper_text(t),
        None => Seq::empty(),
    };
    if dr.len() > 0 && f.len() > 0 {
        dr + " \u{b7} "@ + f
    } else if dr.len() > 0 {
        dr
    } else {
        f
    }
}

/// The player bar's quality line (`24-Bit/96 kHz · FLAC`).
pub fn quality_line(bit_depth: Option<u32>, sample_rate: Option<u32>, format: Option<&str>) -> (s: String)
    ensures
        s@ == quality_line_text(
            bit_depth,
            sample_rate,
            match format {
                Some(t) => Some(t@),
                None => None,
            },
        ),
{
    let mut dr = String::new();
    match bit_depth {
        Some(b) => {
            push_nat(&mut dr, b as u64);
            match sample_rate {
                Some(f) => {
                    dr.append("-Bit/");
                    let k = khz_text(f as i64);
                    dr.append(k.as_str());
                    dr.append(" kHz");
                },
                None => {
                    dr.append("-Bit");
                },
            }
        },
        None => match sample_rate {
            Some(f) => {
                let k = khz_text(f as i64);
                dr.append(k.as_str());
                dr.append(" kHz");
            },
            None => {},
        },
    }
    assert(dr@ =~= depth_rate_text(bit_depth, sample_rate));
    let f = match format {
        Some(t) => to_upper(t),
        None => String::new(),
    };
    if !dr.as_str().is_empty() && !f.as_str().is_empty() {
        dr.append(" \u{b7} ");
        dr.append(f.as_str());
        dr
    } else if !dr.as_str().is_empty() {
        dr
    } else {
        f
    }
}

/// Icon of the play button: pause while playing, else play.
pub fn play_button_icon(playing: bool) -> (s: &'static str)
    ensures
        playing ==> s@ == "media-playback-pause"@,
        !playing ==> s@ == "media-playback-start"@,
{
    if playing {
        "media-playback-pause"
    } else {
        "media-playback-start"
    }
}

/// The play button icon after a playback state change, and whether the bar
/// must be shown: playing shows pause and brings the bar up; anything else
/// shows play.
pub fn on_state_change(state: crate::ui::application::PlaybackState) -> (r: (&'static str, bool))
    ensures
        state == crate::ui::application::PlaybackState::Playing ==> r.0@ == "media-playback-pause"@
            && r.1,
        state != crate::ui::application::PlaybackState::Playing ==> r.0@ == "media-playback-start"@
            && !r.1,
{
    match state {
        crate::ui::application::PlaybackState::Playing => ("media-playback-pause", true),
        _ => ("media-playback-start", false),
    }
}

/// What the player bar's cover image shows.
#[derive(Debug, Clone, Copy, PartialEq, Eq, Structural)]
pub enum PlayerArt {
    /// The `image-missing` icon.
    MissingIcon,
    /// The track's cover, loaded at 96 px.
    Cover,
}

/// The player bar as it shows on screen: whether it is visible, its cover
/// image and the texts of its labels.
#[derive(Debug, Clone)]
pub struct PlayerBarView {
    /// Whether the bar is shown.
    pub visible: bool,
    /// The cover image.
    pub art: PlayerArt,
    /// The song title label.
    pub song_title: String,
    /// The artist label.
    pub song_artist: String,
    /// The album title label.
    pub album_title: String,
    /// The quality line label.
    pub quality: String,
    /// The separate format label.
    pub format: String,
    /// Whether the separate format label is shown.
    pub format_visible: bool,
    /// The elapsed-time label.
    pub time_start: String,
    /// The end-time label.
    pub time_end: String,
    /// End of the progress range in seconds.
    pub range_end: u32,
}

impl PlayerBarView {
    /// A new player bar: hidden until a track is shown, with the
    /// `image-missing` icon and placeholder labels (`Song Title`, `Artist`,
    /// `Album Title`, `24-Bit/96 kHz`, an empty format, `0:00` twice) and a
    /// progress range of 100.
    pub fn initial() -> (v: PlayerBarView)
        ensures
            !v.visible,
            v.art == PlayerArt::MissingIcon,
            v.song_title@ == "Song Title"@,
            v.song_artist@ == "Artist"@,
            v.album_title@ == "Album Title"@,
            v.quality@ == "24-Bit/96 kHz"@,
            v.format@ == Seq::<char>::empty(),
            v.format_visible,
            v.time_start@ == "0:00"@,
            v.time_end@ == "0:00"@,
            v.range_end == 100,
    {
        PlayerBarView {
            visible: false,
            art: PlayerArt::MissingIcon,
            song_title: String::from_str("Song Title"),
            song_artist: String::from_str("Artist"),
            album_title: String::from_str("Album Title"),
            quality: String::from_str("24-Bit/96 kHz"),
            format: String::new(),
            format_visible: true,
            time_start: String::from_str("0:00"),
            time_end: String::from_str("0:00"),
            range_end: 100,
        }
    }

    /// Shows a track: its titles and artist, the quality line, the duration
    /// as end time (progress range the duration, or 100 without one), the
    /// elapsed time reset to `0:00`, the separate format label hidden, the
    /// cover when it loaded (else the `image-missing` icon), and the bar shown.
    pub fn update_with_metadata(
        &mut self,
        album_title: &str,
        song_title: &str,
        song_artist: &str,
        cover_loaded: bool,
        bit_depth: Option<u32>,
        sample_rate: Option<u32>,
        format: Option<&str>,
        duration: Option<u32>,
    )
        ensures
            final(self).visible,
            final(self).art == (if cover_loaded {
                PlayerArt::Cover
            } else {
                PlayerArt::MissingIcon
            }),
            final(self).song_title@ == song_title@,
            final(self).song_artist@ == song_artist@,
            final(self).album_title@ == album_title@,
            final(self).quality@ == quality_line_text(
                bit_depth,
                sample_rate,
                match format {
                    Some(t) => Some(t@),
                    None => None,
                },
            ),
            final(self).format@ == old(self).format@,
            !final(self).format_visible,
            final(self).time_start@ == "0:00"@,
            final(self).time_end@ == (match duration {
                Some(d) => clock(d as nat),
                None => "0:00"@,
            }),
            final(self).range_end == (match duration {
                Some(d) => d,
                None => 100u32,
            }),
    {
        self.song_title = String::from_str(song_title);
        self.song_artist = String::from_str(song_artist);
        self.album_title = String::from_str(album_title);
        self.quality = quality_line(bit_depth, sample_rate, format);
        self.format_visible = false;
        self.time_end = duration_label(duration);
        self.range_end = match duration {
            Some(d) => d,
            None => 100,
        };
        self.time_start = String::from_str("0:00");
        self.art = if cover_loaded {
            PlayerArt::Cover
        } else {
            PlayerArt::MissingIcon
        };
        self.visible = true;
    }
}

} // verus!
