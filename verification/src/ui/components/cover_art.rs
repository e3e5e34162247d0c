//! Album/artist cover display: which content a cover shows, and its DR badge.

use vstd::prelude::*;

use crate::text::{copy_string, opt_view};
use crate::ui::components::dr_badge::{badge_content, badge_texts, optional_quality, BadgeContent};

verus! {

/// What the file system says about an artwork path.
#[derive(Debug, Clone, Copy, PartialEq, Eq, Structural)]
pub enum ArtworkFile {
    /// No file exists at the path.
    Missing,
    /// A file exists but its path cannot be handed to the image loader.
    Unreadable,
    /// A file exists and can be loaded.
    Readable,
}

/// What the cover area shows.
#[derive(Debug, Clone)]
pub enum CoverContent {
    /// The artwork image at `path`.
    Artwork {
        /// Path of the image.
        path: String,
        /// Tooltip (`Album artwork for <path>`).
        tooltip: String,
    },
    /// A themed icon sized to the larger dimension.
    Icon {
        /// Icon name.
        name: String,
        /// Pixel size of the icon.
        pixel_size: i32,
    },
    /// The default placeholder picture.
    Placeholder,
    /// Nothing: the artwork exists but could not be loaded.
    Empty,
}

/// The decided layout of a cover.
#[derive(Debug, Clone)]
pub struct CoverArtPlan {
    /// Content of the cover area.
    pub content: CoverContent,
    /// The DR badge, when shown.
    pub badge: Option<BadgeContent>,
    /// The DR value remembered for later badge changes (`N/A` when absent).
    pub dr_value: String,
    /// Width in pixels.
    pub width: i32,
    /// Height in pixels.
    pub height: i32,
}

/// `Album artwork for <path>`.
pub open spec fn artwork_tooltip(path: Seq<char>) -> Seq<char> {
    "Album artwork for "@ + path
}

/// The remembered DR value: the value, or `N/A`.
pub open spec fn stored_dr(dr_value: Option<Seq<char>>) -> Seq<char> {
    match dr_value {
        Some(s) => s,
        None => "N/A"@,
    }
}

/// Display priority: loadable artwork, then the icon, then the placeholder;
/// an artwork file that exists but cannot be loaded leaves the area empty.
pub open spec fn content_matches(
    c: CoverContent,
    artwork_path: Option<Seq<char>>,
    file: ArtworkFile,
    icon_name: Option<Seq<char>>,
    width: i32,
    height: i32,
) -> bool {
    if artwork_path.is_some() && file != ArtworkFile::Missing {
        if file == ArtworkFile::Readable {
            c matches CoverContent::Artwork { path, tooltip } && path@ == artwork_path.unwrap()
                && tooltip@ == artwork_tooltip(artwork_path.unwrap())
        } else {
            c is Empty
        }
    } else if icon_name.is_some() {
        c matches CoverContent::Icon { name, pixel_size } && name@ == icon_name.unwrap()
            && pixel_size == (if height >= width {
            height
        } else {
            width
        })
    } else {
        c is Placeholder
    }
}

/// A badge that shows the value (or `N/A`) without the `DR` prefix.
pub open spec fn grid_badge_matches(b: BadgeContent, dr_value: Option<Seq<char>>) -> bool {
    &&& b.quality == optional_quality(Some(stored_dr(dr_value)))
    &&& (b.display_text@, b.css_class@) == badge_texts(Some(stored_dr(dr_value)), false)
}

/// Decide what a cover shows.
pub fn plan_cover_art(
    artwork_path: Option<String>,
    file: ArtworkFile,
    icon_name: Option<String>,
    dr_value: Option<String>,
    show_dr_badge: bool,
    width: i32,
    height: i32,
) -> (p: CoverArtPlan)
    ensures
        content_matches(p.content, opt_view(artwork_path), file, opt_view(icon_name), width, height),
        p.badge.is_some() == show_dr_badge,
        p.badge matches Some(b) ==> grid_badge_matches(b, opt_view(dr_value)),
        p.dr_value@ == stored_dr(opt_view(dr_value)),
        p.width == width,
        p.height == height,
{
    let content = match artwork_path {
        Some(path) => {
            match file {
                ArtworkFile::Readable => {
                    let mut tooltip = String::from_str("Album artwork for ");
                    tooltip.append(path.as_str());
                    CoverContent::Artwork { path, tooltip }
                },
                ArtworkFile::Unreadable => CoverContent::Empty,
                ArtworkFile::Missing => icon_or_placeholder(icon_name, width, height),
            }
        },
        None => icon_or_placeholder(icon_name, width, height),
    };
    let stored = match &dr_value {
        Some(s) => copy_string(s),
        None => String::from_str("N/A"),
    };
    let badge = if show_dr_badge {
        Some(badge_content(Some(stored.as_str()), false))
    } else {
        None
    };
    CoverArtPlan { content, badge, dr_value: stored, width, height }
}

fn icon_or_placeholder(icon_name: Option<String>, width: i32, height: i32) -> (c: CoverContent)
    ensures
        match icon_name {
            Some(n) => c matches CoverContent::Icon { name, pixel_size } && name@ == n@
                && pixel_size == (if height >= width {
                height
            } else {
                width
            }),
            None => c is Placeholder,
        },
{
    match icon_name {
        Some(name) => CoverContent::Icon {
            name,
            pixel_size: if height >= width {
                height
            } else {
                width
            },
        },
        None => CoverContent::Placeholder,
    }
}

/// How the cover reacts to new artwork.
#[derive(Debug, Clone)]
pub enum ArtworkUpdate {
    /// Load the file into the existing picture.
    ShowFile {
        /// Path of the image.
        path: String,
        /// Tooltip (`Album artwork for <path>`).
        tooltip: String,
    },
    /// Replace the icon by a picture of the file.
    ReplaceIconWithFile {
        /// Path of the image.
        path: String,
        /// Tooltip (`Album artwork for <path>`).
        tooltip: String,
    },
    /// Clear the picture back to the default artwork.
    ClearToDefault,
    /// Change nothing.
    Keep,
}

/// Decide how a cover that currently shows a picture (`has_picture`) or an
/// icon (`has_icon`) reacts to new artwork: a loadable file goes into the
/// picture, or replaces the icon; anything else clears a picture to the
/// default and leaves an icon alone.
pub fn plan_artwork_update(has_picture: bool, has_icon: bool, artwork_path: Option<String>, file: ArtworkFile) -> (u: ArtworkUpdate)
    ensures
        (artwork_path.is_some() && file == ArtworkFile::Readable) ==> (if has_picture {
            u matches ArtworkUpdate::ShowFile { path, tooltip } && path@ == artwork_path.unwrap()@
                && tooltip@ == artwork_tooltip(artwork_path.unwrap()@)
        } else if has_icon {
            u matches ArtworkUpdate::ReplaceIconWithFile { path, tooltip } && path@
                == artwork_path.unwrap()@ && tooltip@ == artwork_tooltip(artwork_path.unwrap()@)
        } else {
            u is Keep
        }),
        !(artwork_path.is_some() && file == ArtworkFile::Readable) ==> (if has_picture {
            u is ClearToDefault
        } else {
            u is Keep
        }),
{
    match artwork_path {
        Some(path) => {
            if file == ArtworkFile::Readable {
                let mut tooltip = String::from_str("Album artwork for ");
                tooltip.append(path.as_str());
                if has_picture {
                    ArtworkUpdate::ShowFile { path, tooltip }
                } else if has_icon {
                    ArtworkUpdate::ReplaceIconWithFile { path, tooltip }
                } else {
                    ArtworkUpdate::Keep
                }
            } else if has_picture {
                ArtworkUpdate::ClearToDefault
            } else {
                ArtworkUpdate::Keep
            }
        },
        None => {
            if has_picture {
                ArtworkUpdate::ClearToDefault
            } else {
                ArtworkUpdate::Keep
            }
        },
    }
}

/// How the DR badge overlay changes when it is shown or hidden.
#[derive(Debug, Clone)]
pub enum BadgeToggle {
    /// Create a badge with this content and add it.
    Create(BadgeContent),
    /// Make the existing badge visible.
    ShowExisting,
    /// Remove the existing badge.
    Remove,
    /// Change nothing.
    Keep,
}

/// Decide how showing or hiding the badge changes a cover that has a badge
/// (`has_badge`) and remembers `dr_value`.
pub fn plan_badge_toggle(show: bool, has_badge: bool, dr_value: &str) -> (t: BadgeToggle)
    ensures
        show && !has_badge ==> (t matches BadgeToggle::Create(b) && b.quality == optional_quality(
            Some(dr_value@),
        ) && (b.display_text@, b.css_class@) == badge_texts(Some(dr_value@), false)),
        show && has_badge ==> t is ShowExisting,
        !show && has_badge ==> t is Remove,
        !show && !has_badge ==> t is Keep,
{
    if show {
        if has_badge {
            BadgeToggle::ShowExisting
        } else {
            BadgeToggle::Create(badge_content(Some(dr_value), false))
        }
    } else if has_badge {
        BadgeToggle::Remove
    } else {
        BadgeToggle::Keep
    }
}

/// Builder pattern for configuring cover art.
#[derive(Debug, Clone)]
pub struct CoverArtBuilder {
    /// Path to the artwork image file.
    pub artwork_path: Option<String>,
    /// Icon name to display when no artwork is provided.
    pub icon_name: Option<String>,
    /// DR value string to display in the badge overlay (e.g., "DR12").
    pub dr_value: Option<String>,
    /// Whether to show the DR badge overlay on the cover.
    pub show_dr_badge: bool,
    /// Width of the cover art display in pixels.
    pub width: i32,
    /// Height of the cover art display in pixels.
    pub height: i32,
}

impl Default for CoverArtBuilder {
    fn default() -> (b: CoverArtBuilder)
        ensures
            b.artwork_path.is_none(),
            b.icon_name.is_none(),
            b.dr_value.is_none(),
            !b.show_dr_badge,
            b.width == 0,
            b.height == 0,
    {
        CoverArtBuilder {
            artwork_path: None,
            icon_name: None,
            dr_value: None,
            show_dr_badge: false,
            width: 0,
            height: 0,
        }
    }
}

impl CoverArtBuilder {
    /// Sets the path to the artwork image file.
    pub fn artwork_path(self, artwork_path: Option<String>) -> (b: CoverArtBuilder)
        ensures
            b == (CoverArtBuilder { artwork_path, ..self }),
    {
        CoverArtBuilder { artwork_path, ..self }
    }

    /// Sets the icon name to display when no artwork is provided.
    pub fn icon_name(self, icon_name: Option<String>) -> (b: CoverArtBuilder)
        ensures
            b == (CoverArtBuilder { icon_name, ..self }),
    {
        CoverArtBuilder { icon_name, ..self }
    }

    /// Sets the DR value to display in the badge overlay.
    pub fn dr_value(self, dr_value: Option<String>) -> (b: CoverArtBuilder)
        ensures
            b == (CoverArtBuilder { dr_value, ..self }),
    {
        CoverArtBuilder { dr_value, ..self }
    }

    /// Configures whether to show the DR badge overlay.
    pub fn show_dr_badge(self, show_dr_badge: bool) -> (b: CoverArtBuilder)
        ensures
            b == (CoverArtBuilder { show_dr_badge, ..self }),
    {
        CoverArtBuilder { show_dr_badge, ..self }
    }

    /// Sets the dimensions of the cover art display.
    pub fn dimensions(self, width: i32, height: i32) -> (b: CoverArtBuilder)
        ensures
            b == (CoverArtBuilder { width, height, ..self }),
    {
        CoverArtBuilder { width, height, ..self }
    }

    /// The layout of the configured cover, given what the file system says
    /// about its artwork path.
    pub fn plan(self, file: ArtworkFile) -> (p: CoverArtPlan)
        ensures
            content_matches(p.content, opt_view(self.artwork_path), file, opt_view(self.icon_name), self.width, self.height),
            p.badge.is_some() == self.show_dr_badge,
            p.badge matches Some(b) ==> grid_badge_matches(b, opt_view(self.dr_value)),
            p.dr_value@ == stored_dr(opt_view(self.dr_value)),
            p.width == self.width,
            p.height == self.height,
    {
        plan_cover_art(
            self.artwork_path,
            file,
            self.icon_name,
            self.dr_value,
            self.show_dr_badge,
            self.width,
            self.height,
        )
    }
}

/// Whether the cover area holds a picture (the artwork, the placeholder, or
/// an empty picture) rather than an icon image.
pub open spec fn shows_picture(c: CoverContent) -> bool {
    !(c is Icon)
}

/// A cover shows a picture exactly when its artwork file exists or there is
/// no icon name, and an icon image exactly when the file does not exist and
/// an icon name is given.
pub proof fn cover_picture_or_icon(
    c: CoverContent,
    artwork_path: Option<Seq<char>>,
    file: ArtworkFile,
    icon_name: Option<Seq<char>>,
    width: i32,
    height: i32,
)
    requires
        content_matches(c, artwork_path, file, icon_name, width, height),
    ensures
        shows_picture(c) == ((artwork_path.is_some() && file != ArtworkFile::Missing) || icon_name.is_none()),
        (c is Icon) == (!(artwork_path.is_some() && file != ArtworkFile::Missing) && icon_name.is_some()),
{
}

} // verus!
