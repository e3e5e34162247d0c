//! Album format summaries computed from track metadata.

use vstd::prelude::*;

use crate::text::{
    chars_of, digit_char, digit_to_char, div_round_half_even, int_text, int_to_string, join,
    join_strings, lemma_views_push, nat_text, parse_i32, parse_int_chars,
    push_char, push_nat, split_chars, split_on, string_of, trim, trim_chars, views, is_digit,
    digit_value, all_digits, digits_value, is_ws,
};

verus! {

/// `1000 · 2^52`: a value `x / p` of the form `hz / 1000` is brought to
/// double precision when `x / 1000` reaches 52 bits.
pub open spec fn precision_floor() -> nat {
    4503599627370496000
}

/// `x` and `p` doubled together until `x` reaches `precision_floor()`
/// (zero stays zero), keeping `x / p`.
pub open spec fn normalize(x: nat, p: nat) -> (nat, nat)
    decreases 0x1_0000_0000_0000_0000 - x,
{
    if x == 0 || x >= precision_floor() || x >= 0x1_0000_0000_0000_0000 {
        (x, p)
    } else {
        normalize(2 * x, 2 * p)
    }
}

/// Sample rate in Hz as kHz with exactly one decimal (`{:.1}` of
/// `f64::from(hz) / 1000.0`).
///
/// The quotient is the double nearest to `|hz| / 1000`: with `(x, p)` the
/// normalized pair of `|hz|`, its significand is `x / 1000` rounded half to
/// even, and its value that significand over `p`. That value, written to one
/// decimal, is rounded half to even at the tenths; a negative rate keeps its
/// sign even when the tenths round to zero.
pub open spec fn one_decimal_khz(hz: int) -> Seq<char> {
    let a: nat = if hz < 0 {
        (-hz) as nat
    } else {
        hz as nat
    };
    let n = normalize(a, 1);
    let m = div_round_half_even(n.0, 1000);
    let t = div_round_half_even(10 * m, n.1);
    (if hz < 0 {
        seq!['-']
    } else {
        Seq::<char>::empty()
    }) + nat_text(t / 10) + seq!['.', digit_char((t % 10) as int)]
}

/// Short kHz text: whole kHz without decimals, otherwise one decimal.
pub open spec fn short_khz(hz: int) -> Seq<char> {
    if hz % 1000 == 0 {
        int_text(hz / 1000)
    } else {
        one_decimal_khz(hz)
    }
}

/// Label of a channel count: `Mono`, `Stereo`, or `<n> ch`.
pub open spec fn channel_label(n: nat) -> Seq<char> {
    if n == 1 {
        seq!['M', 'o', 'n', 'o']
    } else if n == 2 {
        seq!['S', 't', 'e', 'r', 'e', 'o']
    } else {
        nat_text(n) + seq![' ', 'c', 'h']
    }
}

/// Label of a stored channel count; negative counts read as zero.
pub open spec fn stored_channel_label(c: int) -> Seq<char> {
    channel_label(
        if c < 0 {
            0
        } else {
            c as nat
        },
    )
}

/// Texts of integers.
pub open spec fn int_texts(v: Seq<i32>) -> Seq<Seq<char>> {
    v.map_values(|b: i32| int_text(b as int))
}

/// Short kHz texts of sample rates.
pub open spec fn short_khz_texts(v: Seq<i32>) -> Seq<Seq<char>> {
    v.map_values(|hz: i32| short_khz(hz as int))
}

/// One-decimal kHz texts of sample rates.
pub open spec fn one_decimal_texts(v: Seq<i32>) -> Seq<Seq<char>> {
    v.map_values(|hz: i32| one_decimal_khz(hz as int))
}

/// Channel labels of channel counts.
pub open spec fn channel_texts(v: Seq<i32>) -> Seq<Seq<char>> {
    v.map_values(|c: i32| stored_channel_label(c as int))
}

/// `", "`.
pub open spec fn comma_sep() -> Seq<char> {
    seq![',', ' ']
}

/// `" • "`.
pub open spec fn bullet_sep() -> Seq<char> {
    seq![' ', '\u{2022}', ' ']
}

/// Combines bit depth and sample rate texts: both joined by `mid`, else whichever is present.
pub open spec fn depth_rate(bd: Seq<char>, sr: Seq<char>, mid: Seq<char>) -> Seq<Seq<char>> {
    if bd.len() > 0 && sr.len() > 0 {
        seq![bd + mid + sr]
    } else if bd.len() > 0 {
        seq![bd]
    } else if sr.len() > 0 {
        seq![sr]
    } else {
        Seq::empty()
    }
}

/// Distinct format values for an album, computed from its tracks.
#[derive(Debug, Clone)]
pub struct FormatInfo {
    /// Distinct format/codec names (uppercased).
    pub formats: Vec<String>,
    /// Distinct sample rates in Hz.
    pub sample_rates: Vec<i32>,
    /// Distinct bit depths.
    pub bit_depths: Vec<i32>,
    /// Distinct channel counts.
    pub channels: Vec<i32>,
}

impl Default for FormatInfo {
    fn default() -> (r: FormatInfo)
        ensures
            r.formats@.len() == 0,
            r.sample_rates@.len() == 0,
            r.bit_depths@.len() == 0,
            r.channels@.len() == 0,
    {
        FormatInfo {
            formats: Vec::new(),
            sample_rates: Vec::new(),
            bit_depths: Vec::new(),
            channels: Vec::new(),
        }
    }
}

impl FormatInfo {
    /// Formats joined by `", "`.
    pub open spec fn formats_text(&self) -> Seq<char> {
        join(views(self.formats@), comma_sep())
    }

    /// Bit depths joined by `", "`.
    pub open spec fn depths_text(&self) -> Seq<char> {
        join(int_texts(self.bit_depths@), comma_sep())
    }

    /// Short sample rates joined by `", "`.
    pub open spec fn short_rates_text(&self) -> Seq<char> {
        join(short_khz_texts(self.sample_rates@), comma_sep())
    }

    /// Column text for sample rates: one-decimal kHz values and the unit.
    pub open spec fn rate_column(&self) -> Seq<char> {
        if self.sample_rates@.len() == 0 {
            Seq::empty()
        } else {
            join(one_decimal_texts(self.sample_rates@), comma_sep()) + seq![' ', 'k', 'H', 'z']
        }
    }

    /// Column text for bit depths: the values and `-bit`.
    pub open spec fn depth_column(&self) -> Seq<char> {
        if self.bit_depths@.len() == 0 {
            Seq::empty()
        } else {
            self.depths_text() + seq!['-', 'b', 'i', 't']
        }
    }

    /// The compact grid-card summary.
    pub open spec fn summary_text(&self) -> Seq<char> {
        let fmt = self.formats_text();
        let tail = depth_rate(self.depths_text(), self.short_rates_text(), seq!['/']);
        let parts = if fmt.len() > 0 {
            seq![fmt] + tail
        } else {
            tail
        };
        join(parts, seq![' '])
    }

    /// The detail-page summary.
    pub open spec fn detailed_text(&self) -> Seq<char> {
        let fmt = self.formats_text();
        let head = if fmt.len() > 0 {
            seq![fmt]
        } else {
            Seq::empty()
        };
        let mid = depth_rate(self.depth_column(), self.rate_column(), seq![' ', '/', ' ']);
        let ch = if self.channels@.len() > 0 {
            seq![join(channel_texts(self.channels@), comma_sep())]
        } else {
            Seq::empty()
        };
        join(head + mid + ch, bullet_sep())
    }

    /// Whether all tracks share the same format properties.
    pub fn is_uniform(&self) -> (r: bool)
        ensures
            r == (self.formats@.len() <= 1 && self.sample_rates@.len() <= 1
                && self.bit_depths@.len() <= 1),
    {
        self.formats.len() <= 1 && self.sample_rates.len() <= 1 && self.bit_depths.len() <= 1
    }

    /// Display string for the format column: formats joined by `", "`.
    pub fn formats_display(&self) -> (s: String)
        ensures
            s@ == self.formats_text(),
    {
        if self.formats.len() == 0 {
            let s = String::new();
            assert(s@ =~= self.formats_text());
            s
        } else {
            let s = join_strings(&self.formats, ", ");
            proof {
                reveal_strlit(", ");
                assert(", "@ =~= comma_sep());
            }
            s
        }
    }

    /// Display string for sample rates, always with one decimal (`96.0 kHz`).
    pub fn sample_rate_display(&self) -> (s: String)
        ensures
            s@ == self.rate_column(),
    {
        if self.sample_rates.len() == 0 {
            let s = String::new();
            assert(s@ =~= self.rate_column());
            return s;
        }
        let texts = one_decimal_strings(&self.sample_rates);
        let mut s = join_strings(&texts, ", ");
        s.append(" kHz");
        proof {
            reveal_strlit(", ");
            reveal_strlit(" kHz");
            assert(", "@ =~= comma_sep());
            assert(" kHz"@ =~= seq![' ', 'k', 'H', 'z']);
        }
        s
    }

    /// Display string for bit depths (`16, 24-bit`).
    pub fn bit_depth_display(&self) -> (s: String)
        ensures
            s@ == self.depth_column(),
    {
        if self.bit_depths.len() == 0 {
            let s = String::new();
            assert(s@ =~= self.depth_column());
            return s;
        }
        let texts = int_strings(&self.bit_depths);
        let mut s = join_strings(&texts, ", ");
        s.append("-bit");
        proof {
            reveal_strlit(", ");
            reveal_strlit("-bit");
            assert(", "@ =~= comma_sep());
            assert("-bit"@ =~= seq!['-', 'b', 'i', 't']);
        }
        s
    }

    /// Compact summary for album grid cards: formats, then bit depths and
    /// sample rates joined by `/`, separated by spaces (`FLAC 24/96`).
    pub fn summary(&self) -> (s: String)
        ensures
            s@ == self.summary_text(),
    {
        let fmt = self.formats_display();
        let bd_texts = int_strings(&self.bit_depths);
        let bd = join_strings(&bd_texts, ", ");
        let sr_texts = short_khz_strings(&self.sample_rates);
        let sr = join_strings(&sr_texts, ", ");
        proof {
            reveal_strlit(", ");
            assert(", "@ =~= comma_sep());
        }
        let ghost bdv = bd@;
        let ghost srv = sr@;
        assert(bdv == self.depths_text());
        assert(srv == self.short_rates_text());
        let mut parts: Vec<String> = Vec::new();
        if !fmt.as_str().is_empty() {
            parts.push(fmt);
        }
        let ghost after_fmt = views(parts@);
        let has_bd = !bd.as_str().is_empty();
        let has_sr = !sr.as_str().is_empty();
        if has_bd && has_sr {
            let mut both = bd;
            push_char(&mut both, '/');
            both.append(sr.as_str());
            assert(both@ =~= bdv + seq!['/'] + srv);
            let ghost before = parts@;
            parts.push(both);
            proof {
                lemma_views_push(before, parts@[parts@.len() - 1]);
                assert(parts@ =~= before.push(parts@[parts@.len() - 1]));
            }
        } else if has_sr {
            parts.push(sr);
        } else if has_bd {
            parts.push(bd);
        }
        let s = join_strings(&parts, " ");
        proof {
            reveal_strlit(" ");
            assert(" "@ =~= seq![' ']);
            let fmt_t = self.formats_text();
            let tail = depth_rate(self.depths_text(), self.short_rates_text(), seq!['/']);
            let head = if fmt_t.len() > 0 {
                seq![fmt_t]
            } else {
                Seq::<Seq<char>>::empty()
            };
            assert(after_fmt =~= head);
            assert(views(parts@) =~= head + tail);
            if fmt_t.len() > 0 {
                assert(seq![fmt_t] + tail =~= head + tail);
            } else {
                assert(tail =~= head + tail);
            }
        }
        s
    }

    /// Full summary for detail pages, with units and channel labels
    /// (`FLAC • 24-bit / 96.0 kHz • Stereo`).
    pub fn summary_detailed(&self) -> (s: String)
        ensures
            s@ == self.detailed_text(),
    {
        let mut parts: Vec<String> = Vec::new();
        let fmt = self.formats_display();
        if !fmt.as_str().is_empty() {
            parts.push(fmt);
        }
        let ghost after_fmt = views(parts@);
        let bd = self.bit_depth_display();
        let sr = self.sample_rate_display();
        let has_bd = !bd.as_str().is_empty();
        let has_sr = !sr.as_str().is_empty();
        if has_bd && has_sr {
            let mut both = bd;
            both.append(" / ");
            both.append(sr.as_str());
            parts.push(both);
        } else if has_bd {
            parts.push(bd);
        } else if has_sr {
            parts.push(sr);
        }
        proof {
            reveal_strlit(" / ");
            assert(" / "@ =~= seq![' ', '/', ' ']);
        }
        let ghost after_mid = views(parts@);
        if self.channels.len() > 0 {
            let labels = channel_strings(&self.channels);
            let ch = join_strings(&labels, ", ");
            proof {
                reveal_strlit(", ");
                assert(", "@ =~= comma_sep());
            }
            parts.push(ch);
        }
        let s = join_strings(&parts, " \u{2022} ");
        proof {
            reveal_strlit(" \u{2022} ");
            assert(" \u{2022} "@ =~= bullet_sep());
            let fmt_t = self.formats_text();
            let head = if fmt_t.len() > 0 {
                seq![fmt_t]
            } else {
                Seq::empty()
            };
            let mid = depth_rate(self.depth_column(), self.rate_column(), seq![' ', '/', ' ']);
            let ch = if self.channels@.len() > 0 {
                seq![join(channel_texts(self.channels@), comma_sep())]
            } else {
                Seq::<Seq<char>>::empty()
            };
            assert(after_fmt =~= head);
            assert(after_mid =~= head + mid);
            assert(views(parts@) =~= head + mid + ch);
        }
        s
    }
}

/// `a / b` rounded to the nearest integer, ties to even.
fn round_half_even_div(a: u64, b: u64) -> (r: u64)
    requires
        0 < b < 0x8000_0000_0000_0000,
        a < 0xffff_ffff_ffff_ffff,
    ensures
        r == div_round_half_even(a as nat, b as nat),
{
    let q = a / b;
    let r = a % b;
    if 2 * r > b {
        q + 1
    } else if 2 * r < b {
        q
    } else if q % 2 == 0 {
        q
    } else {
        q + 1
    }
}

/// Appends `hz / 1000` as kHz with exactly one decimal.
fn push_one_decimal_khz(s: &mut String, hz: i64)
    requires
        -0x1_0000_0000 <= hz <= 0x1_0000_0000,
    ensures
        final(s)@ == old(s)@ + one_decimal_khz(hz as int),
{
    let ghost start = s@;
    let a: u64 = if hz < 0 {
        (-hz) as u64
    } else {
        hz as u64
    };
    let mut x: u64 = a;
    let mut p: u64 = 1;
    while x > 0 && x < 4503599627370496000
        invariant
            a <= 0x1_0000_0000,
            normalize(a as nat, 1) == normalize(x as nat, p as nat),
            x == a * p,
            1 <= p,
            a == 0 ==> x == 0,
            a > 0 ==> p <= x,
            x < 2 * precision_floor(),
        decreases 2 * precision_floor() - x,
    {
        assert(2 * x < 0x1_0000_0000_0000_0000);
        assert(a * (2 * p) == 2 * (a * p)) by (nonlinear_arith);
        x = 2 * x;
        p = 2 * p;
    }
    assert(normalize(x as nat, p as nat) == (x as nat, p as nat));
    let m = round_half_even_div(x, 1000);
    assert(m <= x / 1000 + 1);
    let t = round_half_even_div(10 * m, p);
    if hz < 0 {
        push_char(s, '-');
    }
    let ghost signed = s@;
    push_nat(s, t / 10);
    push_char(s, '.');
    let d = digit_to_char(t % 10);
    push_char(s, d);
    proof {
        let sign = if hz < 0 {
            seq!['-']
        } else {
            Seq::<char>::empty()
        };
        assert(signed =~= start + sign);
        assert(s@ =~= start + one_decimal_khz(hz as int));
    }
}

/// Texts of `hz / 1000` with one decimal, one per sample rate.
fn one_decimal_strings(v: &Vec<i32>) -> (r: Vec<String>)
    ensures
        views(r@) == one_decimal_texts(v@),
{
    let mut r: Vec<String> = Vec::new();
    let mut i: usize = 0;
    while i < v.len()
        invariant
            i <= v.len(),
            views(r@) == one_decimal_texts(v@.take(i as int)),
        decreases v.len() - i,
    {
        let mut s = String::new();
        push_one_decimal_khz(&mut s, v[i] as i64);
        let ghost prev = r@;
        let ghost sv = s@;
        r.push(s);
        proof {
            lemma_views_push(prev, r@[r@.len() - 1]);
            assert(r@ =~= prev.push(r@[r@.len() - 1]));
            assert(v@.take(i as int + 1) =~= v@.take(i as int).push(v@[i as int]));
            assert(one_decimal_texts(v@.take(i as int + 1)) =~= one_decimal_texts(v@.take(i as int)).push(sv));
        }
        i = i + 1;
    }
    assert(v@.take(i as int) =~= v@);
    r
}

/// Decimal texts, one per integer.
fn int_strings(v: &Vec<i32>) -> (r: Vec<String>)
    ensures
        views(r@) == int_texts(v@),
{
    let mut r: Vec<String> = Vec::new();
    let mut i: usize = 0;
    while i < v.len()
        invariant
            i <= v.len(),
            views(r@) == int_texts(v@.take(i as int)),
        decreases v.len() - i,
    {
        let s = int_to_string(v[i] as i64);
        let ghost prev = r@;
        let ghost sv = s@;
        r.push(s);
        proof {
            lemma_views_push(prev, r@[r@.len() - 1]);
            assert(r@ =~= prev.push(r@[r@.len() - 1]));
            assert(v@.take(i as int + 1) =~= v@.take(i as int).push(v@[i as int]));
            assert(int_texts(v@.take(i as int + 1)) =~= int_texts(v@.take(i as int)).push(sv));
        }
        i = i + 1;
    }
    assert(v@.take(i as int) =~= v@);
    r
}

/// Short kHz texts, one per sample rate.
fn short_khz_strings(v: &Vec<i32>) -> (r: Vec<String>)
    ensures
        views(r@) == short_khz_texts(v@),
{
    let mut r: Vec<String> = Vec::new();
    let mut i: usize = 0;
    while i < v.len()
        invariant
            i <= v.len(),
            views(r@) == short_khz_texts(v@.take(i as int)),
        decreases v.len() - i,
    {
        let s = format_sample_rate_str(v[i]);
        let ghost prev = r@;
        let ghost sv = s@;
        r.push(s);
        proof {
            lemma_views_push(prev, r@[r@.len() - 1]);
            assert(r@ =~= prev.push(r@[r@.len() - 1]));
            assert(v@.take(i as int + 1) =~= v@.take(i as int).push(v@[i as int]));
            assert(short_khz_texts(v@.take(i as int + 1)) =~= short_khz_texts(v@.take(i as int)).push(sv));
        }
        i = i + 1;
    }
    assert(v@.take(i as int) =~= v@);
    r
}

/// Channel labels, one per stored channel count.
fn channel_strings(v: &Vec<i32>) -> (r: Vec<String>)
    ensures
        views(r@) == channel_texts(v@),
{
    let mut r: Vec<String> = Vec::new();
    let mut i: usize = 0;
    while i < v.len()
        invariant
            i <= v.len(),
            views(r@) == channel_texts(v@.take(i as int)),
        decreases v.len() - i,
    {
        let s = fmt_channel(v[i]);
        let ghost prev = r@;
        let ghost sv = s@;
        r.push(s);
        proof {
            lemma_views_push(prev, r@[r@.len() - 1]);
            assert(r@ =~= prev.push(r@[r@.len() - 1]));
            assert(v@.take(i as int + 1) =~= v@.take(i as int).push(v@[i as int]));
            assert(channel_texts(v@.take(i as int + 1)) =~= channel_texts(v@.take(i as int)).push(sv));
        }
        i = i + 1;
    }
    assert(v@.take(i as int) =~= v@);
    r
}

/// Label of a channel count: `Mono`, `Stereo`, or `<n> ch`.
pub fn channel_count_label(n: u32) -> (s: String)
    ensures
        s@ == channel_label(n as nat),
{
    if n == 1 {
        let s = String::from_str("Mono");
        proof {
            reveal_strlit("Mono");
        }
        assert(s@ =~= channel_label(n as nat));
        s
    } else if n == 2 {
        let s = String::from_str("Stereo");
        proof {
            reveal_strlit("Stereo");
        }
        assert(s@ =~= channel_label(n as nat));
        s
    } else {
        let mut s = String::new();
        push_nat(&mut s, n as u64);
        s.append(" ch");
        proof {
            reveal_strlit(" ch");
        }
        assert(s@ =~= channel_label(n as nat));
        s
    }
}

/// Format a stored channel count to a human-readable label; a negative count reads as zero.
pub fn fmt_channel(c: i32) -> (s: String)
    ensures
        s@ == stored_channel_label(c as int),
{
    let n: u32 = if c < 0 {
        0
    } else {
        c as u32
    };
    channel_count_label(n)
}

/// Format a sample rate in Hz to a short kHz string (`96`, `44.1`).
pub fn format_sample_rate_str(hz: i32) -> (s: String)
    ensures
        s@ == short_khz(hz as int),
{
    khz_text(hz as i64)
}

/// Short kHz text of a rate in Hz: whole kHz without decimals, otherwise one decimal.
pub fn khz_text(hz: i64) -> (s: String)
    requires
        -0x1_0000_0000 <= hz <= 0x1_0000_0000,
    ensures
        s@ == short_khz(hz as int),
{
    let a: u64 = if hz < 0 {
        (-hz) as u64
    } else {
        hz as u64
    };
    if a % 1000 == 0 {
        let k: i64 = if hz < 0 {
            -((a / 1000) as i64)
        } else {
            (a / 1000) as i64
        };
        assert(hz as int % 1000 == 0 && k as int == hz as int / 1000) by (nonlinear_arith)
            requires
                a as int == (if hz < 0 {
                    -(hz as int)
                } else {
                    hz as int
                }),
                a as int % 1000 == 0,
                k as int == (if hz < 0 {
                    -(a as int / 1000)
                } else {
                    a as int / 1000
                }),
        ;
        int_to_string(k)
    } else {
        assert(hz as int % 1000 != 0) by (nonlinear_arith)
            requires
                a as int == (if hz < 0 {
                    -(hz as int)
                } else {
                    hz as int
                }),
                a as int % 1000 != 0,
        ;
        let mut s = String::new();
        push_one_decimal_khz(&mut s, hz);
        assert(s@ =~= short_khz(hz as int));
        s
    }
}

/// The integers parsed from trimmed pieces, skipping pieces that do not parse.
pub open spec fn parsed_ints(pieces: Seq<Seq<char>>) -> Seq<i32>
    decreases pieces.len(),
{
    if pieces.len() == 0 {
        Seq::empty()
    } else {
        let prev = parsed_ints(pieces.drop_last());
        match parse_i32(trim(pieces.last())) {
            Some(v) => prev.push(v as i32),
            None => prev,
        }
    }
}

/// The integers of a comma-separated list, skipping entries that do not parse.
pub open spec fn int_list(s: Seq<char>) -> Seq<i32> {
    parsed_ints(split_on(s, ','))
}

/// The trimmed entries of a comma-separated list.
pub open spec fn trimmed_entries(s: Seq<char>) -> Seq<Seq<char>> {
    split_on(s, ',').map_values(|p: Seq<char>| trim(p))
}

/// Parse a comma-separated string of integers; entries that do not parse as
/// an `i32` after trimming are skipped.
pub fn parse_int_list(s: &str) -> (v: Vec<i32>)
    ensures
        v@ == int_list(s@),
{
    let cs = chars_of(s);
    let pieces = split_chars(&cs, ',');
    let ghost pv = pieces@.map_values(|p: Vec<char>| p@);
    let mut out: Vec<i32> = Vec::new();
    let mut i: usize = 0;
    while i < pieces.len()
        invariant
            i <= pieces.len(),
            pv == pieces@.map_values(|p: Vec<char>| p@),
            out@ == parsed_ints(pv.take(i as int)),
        decreases pieces.len() - i,
    {
        let t = trim_chars(&pieces[i]);
        let r = parse_int_chars(&t, true, i32::MIN as i64, i32::MAX as i64);
        assert(pv.take(i as int + 1).drop_last() =~= pv.take(i as int));
        assert(pv.take(i as int + 1).last() == pieces@[i as int]@);
        match r {
            Some(x) => {
                out.push(x as i32);
            },
            None => {},
        }
        i = i + 1;
    }
    assert(pv.take(i as int) =~= pv);
    out
}

/// The trimmed entries of a comma-separated list, as strings.
fn trimmed_strings(s: &str) -> (v: Vec<String>)
    ensures
        views(v@) == trimmed_entries(s@),
{
    let cs = chars_of(s);
    let pieces = split_chars(&cs, ',');
    let ghost pv = pieces@.map_values(|p: Vec<char>| p@);
    let mut out: Vec<String> = Vec::new();
    let mut i: usize = 0;
    while i < pieces.len()
        invariant
            i <= pieces.len(),
            pv == pieces@.map_values(|p: Vec<char>| p@),
            pv == split_on(s@, ','),
            views(out@) == pv.take(i as int).map_values(|p: Seq<char>| trim(p)),
        decreases pieces.len() - i,
    {
        let t = trim_chars(&pieces[i]);
        let ts = string_of(&t);
        let ghost before = out@;
        out.push(ts);
        proof {
            lemma_views_push(before, out@[out@.len() - 1]);
            assert(out@ =~= before.push(out@[out@.len() - 1]));
            assert(pv.take(i as int + 1) =~= pv.take(i as int).push(pv[i as int]));
            assert(pv.take(i as int + 1).map_values(|p: Seq<char>| trim(p)) =~= pv.take(
                i as int,
            ).map_values(|p: Seq<char>| trim(p)).push(trim(pv[i as int])));
        }
        i = i + 1;
    }
    assert(pv.take(i as int) =~= pv);
    out
}

/// The integers of an optional list; an absent list gives none.
pub open spec fn optional_int_list(s: Option<Seq<char>>) -> Seq<i32> {
    match s {
        Some(t) => int_list(t),
        None => Seq::empty(),
    }
}

fn optional_ints(s: Option<&str>) -> (v: Vec<i32>)
    ensures
        v@ == optional_int_list(
            match s {
                Some(t) => Some(t@),
                None => None,
            },
        ),
{
    match s {
        Some(t) => parse_int_list(t),
        None => Vec::new(),
    }
}

/// Build a `FormatInfo` from the comma-separated columns of a format query:
/// format names are split and trimmed, numbers parsed with bad entries skipped,
/// and absent columns give empty lists.
pub fn raw_info_to_format_info(
    formats: Option<String>,
    sample_rates: Option<&str>,
    bit_depths: Option<&str>,
    channels: Option<&str>,
) -> (fi: FormatInfo)
    ensures
        views(fi.formats@) == (match formats {
            Some(f) => trimmed_entries(f@),
            None => Seq::empty(),
        }),
        fi.sample_rates@ == optional_int_list(
            match sample_rates {
                Some(t) => Some(t@),
                None => None,
            },
        ),
        fi.bit_depths@ == optional_int_list(
            match bit_depths {
                Some(t) => Some(t@),
                None => None,
            },
        ),
        fi.channels@ == optional_int_list(
            match channels {
                Some(t) => Some(t@),
                None => None,
            },
        ),
{
    let names: Vec<String> = match formats {
        Some(f) => trimmed_strings(f.as_str()),
        None => {
            let v: Vec<String> = Vec::new();
            assert(views(v@) =~= Seq::<Seq<char>>::empty());
            v
        },
    };
    FormatInfo {
        formats: names,
        sample_rates: optional_ints(sample_rates),
        bit_depths: optional_ints(bit_depths),
        channels: optional_ints(channels),
    }
}


// ---------------------------------------------------------------------------
// Reading back what was written
// ---------------------------------------------------------------------------

pub(crate) proof fn lemma_digit_char_facts(d: int)
    requires
        0 <= d < 10,
    ensures
        is_digit(digit_char(d)),
        digit_value(digit_char(d)) == d,
        !is_ws(digit_char(d)),
        digit_char(d) != ',',
        digit_char(d) != '-',
        digit_char(d) != '+',
{
}

pub(crate) proof fn lemma_nat_text_digits(n: nat)
    ensures
        all_digits(nat_text(n)),
        digits_value(nat_text(n)) == n,
        nat_text(n).len() > 0,
        !is_ws(nat_text(n)[0]),
        nat_text(n)[0] != '+' && nat_text(n)[0] != '-',
        !is_ws(nat_text(n).last()),
    decreases n,
{
    if n < 10 {
        lemma_digit_char_facts(n as int);
        let t = seq![digit_char(n as int)];
        assert(t.drop_last() =~= Seq::<char>::empty());
        assert(t.last() == digit_char(n as int));
        assert(digits_value(t) == digits_value(t.drop_last()) * 10 + digit_value(t.last()));
    } else {
        lemma_nat_text_digits(n / 10);
        let p = nat_text(n / 10);
        let c = digit_char((n % 10) as int);
        lemma_digit_char_facts((n % 10) as int);
        assert(p.push(c).drop_last() =~= p);
        assert(p.push(c).last() == c);
        assert(digits_value(p.push(c)) == digits_value(p) * 10 + digit_value(c));
        assert((n / 10) * 10 + n % 10 == n);
        assert forall|i: int| 0 <= i < p.push(c).len() implies is_digit(#[trigger] p.push(c)[i]) by {
            if i < p.len() {
                assert(p.push(c)[i] == p[i]);
            }
        }
        assert(p.push(c)[0] == p[0]);
    }
}

proof fn lemma_no_comma_in_int_text(n: int)
    ensures
        !int_text(n).contains(','),
        int_text(n).len() > 0,
        !is_ws(int_text(n)[0]),
        !is_ws(int_text(n).last()),
{
    if n < 0 {
        let m = (-n) as nat;
        lemma_nat_text_digits(m);
        let t = seq!['-'] + nat_text(m);
        assert(t.last() == nat_text(m).last());
        if t.contains(',') {
            let i = choose|i: int| 0 <= i < t.len() && t[i] == ',';
            if i > 0 {
                assert(t[i] == nat_text(m)[i - 1]);
                assert(is_digit(nat_text(m)[i - 1]));
            }
        }
    } else {
        lemma_nat_text_digits(n as nat);
        let t = nat_text(n as nat);
        if t.contains(',') {
            let i = choose|i: int| 0 <= i < t.len() && t[i] == ',';
            assert(is_digit(t[i]));
        }
    }
}

proof fn lemma_trim_unchanged(s: Seq<char>)
    requires
        s.len() > 0,
        !is_ws(s[0]),
        !is_ws(s.last()),
    ensures
        trim(s) == s,
{
}

proof fn lemma_parse_int_text(n: i32)
    ensures
        parse_i32(trim(int_text(n as int))) == Some(n as int),
{
    lemma_no_comma_in_int_text(n as int);
    lemma_trim_unchanged(int_text(n as int));
    if n < 0 {
        let m = (-(n as int)) as nat;
        lemma_nat_text_digits(m);
        let t = seq!['-'] + nat_text(m);
        assert(t.drop_first() =~= nat_text(m));
    } else {
        lemma_nat_text_digits(n as nat);
    }
}

proof fn lemma_split_extend(s: Seq<char>, b: Seq<char>, sep: char)
    requires
        !b.contains(sep),
    ensures
        split_on(s + b, sep) == split_on(s, sep).update(
            split_on(s, sep).len() - 1,
            split_on(s, sep).last() + b,
        ),
    decreases b.len(),
{
    crate::text::lemma_split_nonempty(s, sep);
    if b.len() == 0 {
        assert(s + b =~= s);
        let sp = split_on(s, sep);
        assert(sp.update(sp.len() - 1, sp.last() + b) =~= sp);
    } else {
        let b2 = b.drop_last();
        let c = b.last();
        assert(!b2.contains(sep)) by {
            if b2.contains(sep) {
                let i = choose|i: int| 0 <= i < b2.len() && b2[i] == sep;
                assert(b[i] == sep);
            }
        }
        assert(c != sep) by {
            assert(b[b.len() - 1] == c);
        }
        lemma_split_extend(s, b2, sep);
        assert((s + b).drop_last() =~= s + b2);
        assert((s + b).last() == c);
        crate::text::lemma_split_nonempty(s + b2, sep);
        let sp = split_on(s, sep);
        let prev = split_on(s + b2, sep);
        assert(split_on(s + b, sep) == prev.update(prev.len() - 1, prev.last().push(c)));
        assert(prev.len() == sp.len());
        assert(prev.last() == sp.last() + b2);
        assert((sp.last() + b2).push(c) =~= sp.last() + b);
        assert(split_on(s + b, sep) =~= sp.update(sp.len() - 1, sp.last() + b));
    }
}

proof fn lemma_split_join(parts: Seq<Seq<char>>, sep: char)
    requires
        parts.len() > 0,
        forall|i: int| 0 <= i < parts.len() ==> !(#[trigger] parts[i]).contains(sep),
    ensures
        split_on(join(parts, seq![sep]), sep) == parts,
    decreases parts.len(),
{
    if parts.len() == 1 {
        lemma_split_extend(Seq::empty(), parts[0], sep);
        assert(Seq::<char>::empty() + parts[0] =~= parts[0]);
        assert(split_on(Seq::<char>::empty(), sep) =~= seq![Seq::<char>::empty()]);
        assert(seq![Seq::<char>::empty()].update(0, Seq::<char>::empty() + parts[0]) =~= parts);
    } else {
        let init = parts.drop_last();
        assert forall|i: int| 0 <= i < init.len() implies !(#[trigger] init[i]).contains(sep) by {
            assert(init[i] == parts[i]);
        }
        lemma_split_join(init, sep);
        let a = join(init, seq![sep]);
        let last = parts.last();
        assert(!last.contains(sep)) by {
            assert(parts[parts.len() - 1] == last);
        }
        assert(join(parts, seq![sep]) =~= a.push(sep) + last);
        lemma_split_extend(a.push(sep), last, sep);
        assert(a.push(sep).drop_last() =~= a);
        assert(split_on(a.push(sep), sep) =~= init.push(Seq::empty()));
        assert(init.push(Seq::<char>::empty()).update(init.len() as int, Seq::<char>::empty() + last) =~= parts);
    }
}

proof fn lemma_parsed_int_texts(v: Seq<i32>)
    ensures
        parsed_ints(int_texts(v)) == v,
    decreases v.len(),
{
    if v.len() > 0 {
        lemma_parsed_int_texts(v.drop_last());
        assert(int_texts(v).drop_last() =~= int_texts(v.drop_last()));
        lemma_parse_int_text(v.last());
        assert(int_texts(v).last() == int_text(v.last() as int));
        assert(v.drop_last().push(v.last()) =~= v);
    } else {
        assert(int_texts(v) =~= Seq::<Seq<char>>::empty());
    }
}

/// Integers written as decimal text joined by commas (as a grouped query
/// concatenates them) read back as the same integers, in the same order.
pub proof fn int_list_round_trip(v: Seq<i32>)
    ensures
        int_list(join(int_texts(v), seq![','])) == v,
{
    if v.len() == 0 {
        let e = Seq::<char>::empty();
        assert(int_texts(v) =~= Seq::<Seq<char>>::empty());
        assert(join(int_texts(v), seq![',']) =~= e);
        assert(split_on(e, ',') =~= seq![e]);
        assert(seq![e].drop_last() =~= Seq::<Seq<char>>::empty());
        assert(seq![e].last() == e);
        assert(trim(e) =~= e);
        assert(parse_i32(trim(e)).is_none());
        assert(parsed_ints(Seq::<Seq<char>>::empty()) =~= Seq::<i32>::empty());
        assert(parsed_ints(seq![e]) == parsed_ints(seq![e].drop_last()));
        assert(parsed_ints(seq![e]) =~= Seq::<i32>::empty());
        assert(v =~= Seq::<i32>::empty());
    } else {
        assert forall|i: int| 0 <= i < int_texts(v).len() implies !(#[trigger] int_texts(v)[i]).contains(',') by {
            lemma_no_comma_in_int_text(v[i] as int);
        }
        lemma_split_join(int_texts(v), ',');
        lemma_parsed_int_texts(v);
    }
}


proof fn lemma_normalize_ratio(x: nat, p: nat)
    requires
        p > 0,
    ensures
        normalize(x, p).0 * p == x * normalize(x, p).1,
        normalize(x, p).1 > 0,
    decreases 0x1_0000_0000_0000_0000 - x,
{
    if !(x == 0 || x >= precision_floor() || x >= 0x1_0000_0000_0000_0000) {
        lemma_normalize_ratio(2 * x, 2 * p);
        let n = normalize(2 * x, 2 * p);
        assert(n.0 * p == x * n.1) by (nonlinear_arith)
            requires
                n.0 * (2 * p) == (2 * x) * n.1,
        ;
    }
}

/// Whole kilohertz keep their one decimal in the column text: a rate of
/// `k` kHz reads `k.0` there (`96.0 kHz`), and the short form drops it (`96`).
pub proof fn whole_khz_keep_one_decimal(k: int)
    ensures
        one_decimal_khz(1000 * k) == int_text(k) + seq!['.', '0'],
        short_khz(1000 * k) == int_text(k),
{
    let hz = 1000 * k;
    let a: nat = if hz < 0 {
        (-hz) as nat
    } else {
        hz as nat
    };
    let ak: nat = if k < 0 {
        (-k) as nat
    } else {
        k as nat
    };
    assert(a == 1000 * ak);
    lemma_normalize_ratio(a, 1);
    let n = normalize(a, 1);
    let pp = n.1;
    assert(n.0 == 1000 * (ak * pp)) by (nonlinear_arith)
        requires
            n.0 * 1 == a * pp,
            a == 1000 * ak,
    ;
    let m = div_round_half_even(n.0, 1000);
    assert(n.0 / 1000 == ak * pp && n.0 % 1000 == 0) by (nonlinear_arith)
        requires
            n.0 == 1000 * (ak * pp),
    ;
    assert(m == ak * pp);
    let t = div_round_half_even(10 * m, pp);
    assert((10 * m) / pp == 10 * ak && (10 * m) % pp == 0) by (nonlinear_arith)
        requires
            m == ak * pp,
            pp > 0,
    ;
    assert(t == 10 * ak);
    assert(t / 10 == ak && t % 10 == 0);
    assert(hz % 1000 == 0 && hz / 1000 == k);
    if k < 0 {
        assert(hz < 0);
        assert(int_text(k) == seq!['-'] + nat_text(ak));
        assert(one_decimal_khz(hz) =~= int_text(k) + seq!['.', '0']);
    } else {
        assert(hz >= 0);
        assert(one_decimal_khz(hz) =~= int_text(k) + seq!['.', '0']);
    }
}

} // verus!
