//! Album card geometry and texts: cover size, label widths, year and tooltip.

use vstd::prelude::*;

use crate::text::{int_text, int_to_string, push_int};

verus! {

/// A cover width that does not fit the toolkit's signed pixel sizes.
#[derive(Debug, Clone, Copy, PartialEq, Eq, Structural)]
pub struct CoverSizeError {
    /// The rejected width.
    pub cover_width: u32,
}

/// Cover side length: the requested size, else 120 px compact or 180 px.
pub open spec fn cover_side(compact: bool, cover_size: Option<u32>) -> u32 {
    match cover_size {
        Some(s) => s,
        None => if compact {
            120
        } else {
            180
        },
    }
}

/// Square cover dimensions; a side beyond `i32::MAX` is refused.
pub fn calculate_cover_dimensions(compact: bool, cover_size: Option<u32>) -> (r: Result<(i32, i32), CoverSizeError>)
    ensures
        cover_side(compact, cover_size) <= i32::MAX ==> r == Ok::<(i32, i32), CoverSizeError>(
            (cover_side(compact, cover_size) as i32, cover_side(compact, cover_size) as i32),
        ),
        cover_side(compact, cover_size) > i32::MAX ==> r == Err::<(i32, i32), CoverSizeError>(
            CoverSizeError { cover_width: cover_side(compact, cover_size) },
        ),
{
    let side: u32 = match cover_size {
        Some(s) => s,
        None => if compact {
            120
        } else {
            180
        },
    };
    if side > 0x7fff_ffff {
        Err(CoverSizeError { cover_width: side })
    } else {
        Ok((side as i32, side as i32))
    }
}

/// Widest label in characters for a cover width: a character per 10 px of
/// the width beyond 16 px, and never below 8.
pub open spec fn label_chars(width: int) -> int {
    if width - 16 >= 80 {
        (width - 16) / 10
    } else {
        8
    }
}

/// Title width in characters for a cover width.
pub fn calculate_title_max_width(cover_width: i32) -> (r: i32)
    requires
        cover_width >= i32::MIN + 16,
    ensures
        r == label_chars(cover_width as int),
{
    if cover_width - 16 >= 80 {
        (cover_width - 16) / 10
    } else {
        8
    }
}

/// Format label width in characters: a character per 20 px of the width
/// beyond 16 px (half the title's), and never below 8.
pub fn calculate_format_max_width(cover_width: i32) -> (r: i32)
    requires
        cover_width >= i32::MIN + 16,
    ensures
        r == (if cover_width - 16 >= 160 {
            ((cover_width - 16) / 2) / 10
        } else {
            8
        }),
{
    if cover_width - 16 >= 160 {
        ((cover_width - 16) / 2) / 10
    } else {
        8
    }
}

/// Widths in characters of the title, artist and format labels for a cover width.
/// A width of less than 16 px leaves nothing beyond 16 px, so every label
/// falls to 8 characters. Every `u32` width gives widths that fit an `i32`,
/// so the result is always `Ok`; the error is the one the toolkit's signed
/// sizes would report and never arises here.
pub fn label_max_widths(cover_width: u32) -> (r: Result<(i32, i32, i32), CoverSizeError>)
    ensures
        r == Ok::<(i32, i32, i32), CoverSizeError>(
            (
                label_chars(cover_width as int) as i32,
                label_chars(cover_width as int) as i32,
                label_chars((cover_width - 16) / 2 + 16) as i32,
            ),
        ),
{
    let beyond: u32 = if cover_width >= 16 {
        cover_width - 16
    } else {
        0
    };
    let t = beyond / 10;
    let title: i32 = if t >= 8 {
        t as i32
    } else {
        8
    };
    let h = (beyond / 2) / 10;
    let format: i32 = if h >= 8 {
        h as i32
    } else {
        8
    };
    Ok((title, title, format))
}

/// Year label: the year, or nothing.
pub open spec fn year_label(year: Option<i32>) -> Seq<char> {
    match year {
        Some(y) => int_text(y as int),
        None => Seq::empty(),
    }
}

/// The year label of an album.
pub fn year_text(year: Option<i32>) -> (s: String)
    ensures
        s@ == year_label(year),
{
    match year {
        Some(y) => int_to_string(y as i64),
        None => String::new(),
    }
}

/// Card tooltip: `<title> by <artist> (<year>)`, with year 0 when unknown.
pub open spec fn card_tooltip(title: Seq<char>, artist: Seq<char>, year: Option<i32>) -> Seq<char> {
    title + " by "@ + artist + " ("@ + int_text(
        match year {
            Some(y) => y as int,
            None => 0,
        },
    ) + ")"@
}

/// The tooltip of an album card.
pub fn card_tooltip_text(title: &str, artist: &str, year: Option<i32>) -> (s: String)
    ensures
        s@ == card_tooltip(title@, artist@, year),
{
    let mut s = String::from_str(title);
    s.append(" by ");
    s.append(artist);
    s.append(" (");
    let y: i64 = match year {
        Some(y) => y as i64,
        None => 0,
    };
    push_int(&mut s, y);
    s.append(")");
    s
}

/// The format label's tooltip: the format text, unless it is empty.
pub fn format_tooltip(format_info: &str) -> (r: Option<String>)
    ensures
        format_info@.len() == 0 ==> r.is_none(),
        format_info@.len() > 0 ==> (r matches Some(t) && t@ == format_info@),
{
    if format_info.is_empty() {
        None
    } else {
        Some(String::from_str(format_info))
    }
}

} // verus!
