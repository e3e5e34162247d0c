//! Dynamic Range (DR) values: quality levels, badge text and style classes.

use vstd::prelude::*;

use crate::storage::formats::lemma_nat_text_digits;
use crate::text::{
    chars_of, is_digit, nat_text, pad2_text, parse_i32, parse_int_chars, parse_u8, push_char,
    push_nat, opt_view, views,
};

verus! {

/// DR (Dynamic Range) quality levels with corresponding colors.
#[derive(Debug, Clone, Copy, PartialEq, Eq, Structural)]
pub enum DRQuality {
    /// Excellent quality (DR14+)
    Excellent,
    /// Good quality (DR12-DR13)
    Good,
    /// Fair quality (DR10-DR11)
    Fair,
    /// Poor quality (DR8-DR9)
    Poor,
    /// Very poor quality (DR7 or below)
    VeryPoor,
    /// Unknown or invalid DR value
    Unknown,
}

/// The text from the first ASCII digit on (`DR12` gives `12`).
pub open spec fn from_first_digit(s: Seq<char>) -> Seq<char>
    decreases s.len(),
{
    if s.len() > 0 && !is_digit(s[0]) {
        from_first_digit(s.drop_first())
    } else {
        s
    }
}

/// The quality level of a DR number.
pub open spec fn quality_of_number(v: int) -> DRQuality {
    if v >= 14 {
        DRQuality::Excellent
    } else if v >= 12 {
        DRQuality::Good
    } else if v >= 10 {
        DRQuality::Fair
    } else if v >= 8 {
        DRQuality::Poor
    } else if v >= 0 {
        DRQuality::VeryPoor
    } else {
        DRQuality::Unknown
    }
}

/// The quality level of a DR text: its number after the first digit, if that
/// parses as an `i32`, else unknown.
pub open spec fn quality_of_text(s: Seq<char>) -> DRQuality {
    match parse_i32(from_first_digit(s)) {
        Some(v) => quality_of_number(v),
        None => DRQuality::Unknown,
    }
}

/// The CSS class of a quality level.
pub open spec fn quality_css(q: DRQuality) -> Seq<char> {
    match q {
        DRQuality::Excellent => "dr-14"@,
        DRQuality::Good => "dr-12"@,
        DRQuality::Fair => "dr-10"@,
        DRQuality::Poor => "dr-08"@,
        DRQuality::VeryPoor => "dr-00"@,
        DRQuality::Unknown => "dr-na"@,
    }
}

/// The accessible label of a quality level.
pub open spec fn quality_aria(q: DRQuality) -> Seq<char> {
    match q {
        DRQuality::Excellent => "Excellent dynamic range quality"@,
        DRQuality::Good => "Good dynamic range quality"@,
        DRQuality::Fair => "Fair dynamic range quality"@,
        DRQuality::Poor => "Poor dynamic range quality"@,
        DRQuality::VeryPoor => "Very poor dynamic range quality"@,
        DRQuality::Unknown => "Unknown dynamic range quality"@,
    }
}

/// The characters after the first digit of `s`.
fn digits_part(s: &str) -> (v: Vec<char>)
    ensures
        v@ == from_first_digit(s@),
{
    let cs = chars_of(s);
    let mut i: usize = 0;
    assert(cs@.subrange(0, cs.len() as int) =~= cs@);
    while i < cs.len() && !('0' <= cs[i] && cs[i] <= '9')
        invariant
            i <= cs.len(),
            cs@ == s@,
            from_first_digit(s@) == from_first_digit(cs@.subrange(i as int, cs.len() as int)),
        decreases cs.len() - i,
    {
        let ghost t = cs@.subrange(i as int, cs.len() as int);
        assert(t.drop_first() =~= cs@.subrange(i as int + 1, cs.len() as int));
        i = i + 1;
    }
    let mut v: Vec<char> = Vec::new();
    let mut j: usize = i;
    let ghost start = i;
    while j < cs.len()
        invariant
            start <= j <= cs.len(),
            v@ == cs@.subrange(start as int, j as int),
        decreases cs.len() - j,
    {
        v.push(cs[j]);
        j = j + 1;
        assert(v@ =~= cs@.subrange(start as int, j as int));
    }
    proof {
        let t = cs@.subrange(start as int, cs.len() as int);
        if t.len() > 0 {
            assert(t[0] == cs@[start as int]);
        }
        assert(from_first_digit(t) == t);
    }
    v
}

impl DRQuality {
    /// Determines the quality level from a DR value string (`DR12` is good).
    pub fn from_dr_value(dr_value: &str) -> (q: DRQuality)
        ensures
            q == quality_of_text(dr_value@),
    {
        let digits = digits_part(dr_value);
        match parse_int_chars(&digits, true, i32::MIN as i64, i32::MAX as i64) {
            Some(value) => {
                if value >= 14 {
                    DRQuality::Excellent
                } else if value >= 12 {
                    DRQuality::Good
                } else if value >= 10 {
                    DRQuality::Fair
                } else if value >= 8 {
                    DRQuality::Poor
                } else if value >= 0 {
                    DRQuality::VeryPoor
                } else {
                    DRQuality::Unknown
                }
            },
            None => DRQuality::Unknown,
        }
    }

    /// Gets the CSS class name for this quality level.
    pub fn css_class(&self) -> (s: &'static str)
        ensures
            s@ == quality_css(*self),
    {
        match self {
            DRQuality::Excellent => "dr-14",
            DRQuality::Good => "dr-12",
            DRQuality::Fair => "dr-10",
            DRQuality::Poor => "dr-08",
            DRQuality::VeryPoor => "dr-00",
            DRQuality::Unknown => "dr-na",
        }
    }

    /// Gets the ARIA label for accessibility.
    pub fn aria_label(&self) -> (s: &'static str)
        ensures
            s@ == quality_aria(*self),
    {
        match self {
            DRQuality::Excellent => "Excellent dynamic range quality",
            DRQuality::Good => "Good dynamic range quality",
            DRQuality::Fair => "Fair dynamic range quality",
            DRQuality::Poor => "Poor dynamic range quality",
            DRQuality::VeryPoor => "Very poor dynamic range quality",
            DRQuality::Unknown => "Unknown dynamic range quality",
        }
    }
}

/// What a DR badge shows: its quality, label text and style class.
#[derive(Debug, Clone)]
pub struct BadgeContent {
    /// Quality level of the value.
    pub quality: DRQuality,
    /// Text of the badge label (`DR12`, `12`, `DR N/A`).
    pub display_text: String,
    /// Style class (`dr-12`, `dr-na`).
    pub css_class: String,
}

/// The label text and style class of a badge: the value's number, read as a
/// `u8`, padded to two digits (with a `DR` prefix when shown), or `N/A`.
pub open spec fn badge_texts(dr_value: Option<Seq<char>>, show_label: bool) -> (Seq<char>, Seq<char>) {
    let na = (
        if show_label {
            "DR N/A"@
        } else {
            "N/A"@
        },
        "dr-na"@,
    );
    match dr_value {
        Some(s) => match parse_u8(from_first_digit(s)) {
            Some(n) => (
                if show_label {
                    seq!['D', 'R'] + pad2_text(n as nat)
                } else {
                    pad2_text(n as nat)
                },
                seq!['d', 'r', '-'] + pad2_text(n as nat),
            ),
            None => na,
        },
        None => na,
    }
}

/// The quality of an optional DR value; no value is unknown.
pub open spec fn optional_quality(dr_value: Option<Seq<char>>) -> DRQuality {
    match dr_value {
        Some(s) => quality_of_text(s),
        None => DRQuality::Unknown,
    }
}

/// Appends a number padded with zeros to two digits (`{:02}`).
fn push_pad2(s: &mut String, n: u64)
    ensures
        final(s)@ == old(s)@ + pad2_text(n as nat),
{
    if n < 10 {
        push_char(s, '0');
    }
    push_nat(s, n);
    proof {
        if n < 10 {
            assert(nat_text(n as nat) =~= seq![crate::text::digit_char(n as int)]);
        }
    }
}

/// Decide what a badge for `dr_value` shows.
pub fn badge_content(dr_value: Option<&str>, show_label: bool) -> (c: BadgeContent)
    ensures
        c.quality == optional_quality(
            match dr_value {
                Some(s) => Some(s@),
                None => None,
            },
        ),
        (c.display_text@, c.css_class@) == badge_texts(
            match dr_value {
                Some(s) => Some(s@),
                None => None,
            },
            show_label,
        ),
{
    let quality = match dr_value {
        Some(s) => DRQuality::from_dr_value(s),
        None => DRQuality::Unknown,
    };
    let number: Option<u64> = match dr_value {
        Some(s) => {
            let digits = digits_part(s);
            match parse_int_chars(&digits, false, 0, 255) {
                Some(n) => Some(n as u64),
                None => None,
            }
        },
        None => None,
    };
    match number {
        Some(n) => {
            let mut text = String::new();
            if show_label {
                text.append("DR");
            }
            push_pad2(&mut text, n);
            let mut css = String::from_str("dr-");
            push_pad2(&mut css, n);
            proof {
                reveal_strlit("DR");
                reveal_strlit("dr-");
            }
            let c = BadgeContent { quality, display_text: text, css_class: css };
            assert((c.display_text@, c.css_class@) =~= badge_texts(
                match dr_value {
                    Some(s) => Some(s@),
                    None => None,
                },
                show_label,
            ));
            c
        },
        None => {
            let text = if show_label {
                String::from_str("DR N/A")
            } else {
                String::from_str("N/A")
            };
            BadgeContent { quality, display_text: text, css_class: String::from_str("dr-na") }
        },
    }
}

/// The label of a grid DR badge as it shows on screen: text, tooltip,
/// style classes and the quality they stand for.
#[derive(Debug, Clone)]
pub struct DRBadgeLabel {
    /// Quality level of the shown value.
    pub quality: DRQuality,
    /// Label text (`DR12`, `DR N/A`).
    pub display_text: String,
    /// Tooltip: the quality's accessible label.
    pub tooltip: String,
    /// Style classes of the label, in order.
    pub css_classes: Vec<String>,
}

impl DRBadgeLabel {
    /// Shows a new DR value: the number after the first digit, read as a
    /// `u8`, as `DR<nn>` with class `dr-<nn>`, or `DR N/A` with `dr-na`; the
    /// tooltip names the value's quality; the classes are the two base
    /// classes of a grid badge label, then the value's class.
    pub fn update_dr_value(&mut self, dr_value: Option<String>)
        ensures
            final(self).quality == optional_quality(opt_view(dr_value)),
            final(self).display_text@ == badge_texts(opt_view(dr_value), true).0,
            final(self).tooltip@ == quality_aria(final(self).quality),
            views(final(self).css_classes@) == seq![
                "dr-badge-label"@,
                "dr-badge-label-grid"@,
                badge_texts(opt_view(dr_value), true).1,
            ],
    {
        let c = match &dr_value {
            Some(s) => badge_content(Some(s.as_str()), true),
            None => badge_content(None, true),
        };
        let tooltip = String::from_str(c.quality.aria_label());
        let mut classes: Vec<String> = Vec::new();
        classes.push(String::from_str("dr-badge-label"));
        classes.push(String::from_str("dr-badge-label-grid"));
        classes.push(c.css_class);
        assert(views(classes@) =~= seq![
            "dr-badge-label"@,
            "dr-badge-label-grid"@,
            badge_texts(opt_view(dr_value), true).1,
        ]);
        self.quality = c.quality;
        self.display_text = c.display_text;
        self.tooltip = tooltip;
        self.css_classes = classes;
    }
}

/// Builder pattern for configuring DR badges.
#[derive(Debug, Clone)]
pub struct DRBadgeBuilder {
    /// The DR value to display (e.g., "DR12").
    pub dr_value: Option<String>,
    /// Whether to show the "DR" label prefix.
    pub show_label: bool,
}

impl Default for DRBadgeBuilder {
    fn default() -> (b: DRBadgeBuilder)
        ensures
            b.dr_value.is_none(),
            !b.show_label,
    {
        DRBadgeBuilder { dr_value: None, show_label: false }
    }
}

impl DRBadgeBuilder {
    /// Sets the DR value to display.
    pub fn dr_value(self, dr_value: String) -> (b: DRBadgeBuilder)
        ensures
            b.dr_value == Some(dr_value),
            b.show_label == self.show_label,
    {
        DRBadgeBuilder { dr_value: Some(dr_value), ..self }
    }

    /// Configures whether to show the "DR" label prefix.
    pub fn show_label(self, show_label: bool) -> (b: DRBadgeBuilder)
        ensures
            b.show_label == show_label,
            b.dr_value == self.dr_value,
    {
        DRBadgeBuilder { show_label, ..self }
    }

    /// What the configured badge shows.
    pub fn content(&self) -> (c: BadgeContent)
        ensures
            c.quality == optional_quality(
                match self.dr_value {
                    Some(s) => Some(s@),
                    None => None,
                },
            ),
            (c.display_text@, c.css_class@) == badge_texts(
                match self.dr_value {
                    Some(s) => Some(s@),
                    None => None,
                },
                self.show_label,
            ),
    {
        match &self.dr_value {
            Some(s) => badge_content(Some(s.as_str()), self.show_label),
            None => badge_content(None, self.show_label),
        }
    }
}

/// A badge's quality and its text agree: a value whose number does not read
/// as an `i32` has unknown quality; one whose number reads as neither an
/// `i32` nor a `u8` shows `dr-na`; and a number that reads as a `u8` reads as
/// the same `i32`, so the badge text and the quality come from one number.
pub proof fn badge_agrees_with_quality(s: Seq<char>, show_label: bool)
    ensures
        parse_i32(from_first_digit(s)).is_none() ==> quality_of_text(s) == DRQuality::Unknown,
        parse_u8(from_first_digit(s)).is_none() && parse_i32(from_first_digit(s)).is_none()
            ==> badge_texts(Some(s), show_label).1 == "dr-na"@,
        parse_u8(from_first_digit(s)) matches Some(n) ==> parse_i32(from_first_digit(s)) == Some(n),
{
}

/// The order of the quality levels, worst known level lowest; unknown
/// ranks below every known level.
pub open spec fn quality_rank(q: DRQuality) -> int {
    match q {
        DRQuality::Excellent => 4,
        DRQuality::Good => 3,
        DRQuality::Fair => 2,
        DRQuality::Poor => 1,
        DRQuality::VeryPoor => 0,
        DRQuality::Unknown => -1,
    }
}

/// The quality of a `DRn` text for every `n` an `i32` holds: DR14 and up is
/// excellent, DR12 and DR13 good, DR10 and DR11 fair, DR8 and DR9 poor, below
/// DR8 very poor; and the quality never drops as `n` grows.
pub proof fn dr_text_quality_law(n: nat, m: nat)
    requires
        n <= i32::MAX,
        m <= i32::MAX,
    ensures
        quality_of_text("DR"@ + nat_text(n)) == (if n >= 14 {
            DRQuality::Excellent
        } else if n >= 12 {
            DRQuality::Good
        } else if n >= 10 {
            DRQuality::Fair
        } else if n >= 8 {
            DRQuality::Poor
        } else {
            DRQuality::VeryPoor
        }),
        n <= m ==> quality_rank(quality_of_text("DR"@ + nat_text(n))) <= quality_rank(
            quality_of_text("DR"@ + nat_text(m)),
        ),
{
    lemma_dr_text_number(n);
    lemma_dr_text_number(m);
}

proof fn lemma_dr_text_number(n: nat)
    requires
        n <= i32::MAX,
    ensures
        quality_of_text("DR"@ + nat_text(n)) == quality_of_number(n as int),
{
    reveal_strlit("DR");
    lemma_nat_text_digits(n);
    let t = nat_text(n);
    let s = "DR"@ + t;
    assert(!is_digit(s[0]));
    assert(s.drop_first() =~= seq!['R'] + t);
    let r = seq!['R'] + t;
    assert(!is_digit(r[0]));
    assert(r.drop_first() =~= t);
    assert(is_digit(t[0]));
    assert(from_first_digit(t) == t);
    assert(from_first_digit(r) == t);
    assert(from_first_digit(s) == t);
}

} // verus!
