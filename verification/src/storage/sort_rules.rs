//! Sort criteria and ordering rules for library grid views.

use vstd::prelude::*;

use crate::text::same_text;

verus! {

/// Criteria for sorting the album grid view.
#[derive(Debug, Clone, Copy, PartialEq, Eq, Hash, Structural)]
pub enum AlbumSortCriteria {
    /// Sort by album title.
    Title,
    /// Sort by artist name.
    Artist,
    /// Sort by release year.
    Year,
    /// Sort by audio format.
    Format,
    /// Sort by bits per sample.
    BitDepth,
    /// Sort by sample rate.
    SampleRate,
}

/// Stable numeric identifier of an album criterion.
pub open spec fn album_disc(c: AlbumSortCriteria) -> u8 {
    match c {
        AlbumSortCriteria::Title => 0,
        AlbumSortCriteria::Artist => 1,
        AlbumSortCriteria::Year => 2,
        AlbumSortCriteria::Format => 3,
        AlbumSortCriteria::BitDepth => 4,
        AlbumSortCriteria::SampleRate => 5,
    }
}

/// Display label of an album criterion.
pub open spec fn album_label(c: AlbumSortCriteria) -> Seq<char> {
    match c {
        AlbumSortCriteria::Title => seq!['T', 'i', 't', 'l', 'e'],
        AlbumSortCriteria::Artist => seq!['A', 'r', 't', 'i', 's', 't'],
        AlbumSortCriteria::Year => seq!['Y', 'e', 'a', 'r'],
        AlbumSortCriteria::Format => seq!['F', 'o', 'r', 'm', 'a', 't'],
        AlbumSortCriteria::BitDepth => seq!['B', 'i', 't', ' ', 'D', 'e', 'p', 't', 'h'],
        AlbumSortCriteria::SampleRate => seq!['S', 'a', 'm', 'p', 'l', 'e', ' ', 'R', 'a', 't', 'e'],
    }
}

/// Criteria for sorting the artist grid view.
#[derive(Debug, Clone, Copy, PartialEq, Eq, Hash, Structural)]
pub enum ArtistSortCriteria {
    /// Sort by artist name.
    Name,
    /// Sort by number of albums.
    AlbumCount,
}

/// Stable numeric identifier of an artist criterion.
pub open spec fn artist_disc(c: ArtistSortCriteria) -> u8 {
    match c {
        ArtistSortCriteria::Name => 0,
        ArtistSortCriteria::AlbumCount => 1,
    }
}

/// Display label of an artist criterion.
pub open spec fn artist_label(c: ArtistSortCriteria) -> Seq<char> {
    match c {
        ArtistSortCriteria::Name => seq!['N', 'a', 'm', 'e'],
        ArtistSortCriteria::AlbumCount => seq!['A', 'l', 'b', 'u', 'm', ' ', 'C', 'o', 'u', 'n', 't'],
    }
}

/// Sort order for library grid view sorting.
#[derive(Debug, Clone, Copy, PartialEq, Eq, Structural)]
pub enum SortOrder {
    /// Ascending sort order.
    Ascending,
    /// Descending sort order.
    Descending,
}

impl Default for SortOrder {
    fn default() -> (r: SortOrder)
        ensures
            r == SortOrder::Ascending,
    {
        SortOrder::Ascending
    }
}

/// A single sort rule for the album grid.
#[derive(Debug, Clone, Copy, PartialEq, Eq, Structural)]
pub struct AlbumSortItem {
    /// The sorting criteria.
    pub criteria: AlbumSortCriteria,
    /// The sorting order.
    pub order: SortOrder,
}

/// A single sort rule for the artist grid.
#[derive(Debug, Clone, Copy, PartialEq, Eq, Structural)]
pub struct ArtistSortItem {
    /// The sorting criteria.
    pub criteria: ArtistSortCriteria,
    /// The sorting order.
    pub order: SortOrder,
}

impl AlbumSortCriteria {
    /// Numeric discriminator used as a compact widget identifier.
    pub fn discriminator(&self) -> (d: u8)
        ensures
            d == album_disc(*self),
    {
        match self {
            AlbumSortCriteria::Title => 0,
            AlbumSortCriteria::Artist => 1,
            AlbumSortCriteria::Year => 2,
            AlbumSortCriteria::Format => 3,
            AlbumSortCriteria::BitDepth => 4,
            AlbumSortCriteria::SampleRate => 5,
        }
    }

    /// Recover a variant from its numeric discriminator.
    pub fn from_discriminator(d: u8) -> (r: Option<AlbumSortCriteria>)
        ensures
            r.is_some() <==> d < 6,
            r matches Some(c) ==> album_disc(c) == d,
    {
        match d {
            0 => Some(AlbumSortCriteria::Title),
            1 => Some(AlbumSortCriteria::Artist),
            2 => Some(AlbumSortCriteria::Year),
            3 => Some(AlbumSortCriteria::Format),
            4 => Some(AlbumSortCriteria::BitDepth),
            5 => Some(AlbumSortCriteria::SampleRate),
            _ => None,
        }
    }

    /// Human-readable label (`Bit Depth`).
    pub fn to_string(&self) -> (s: String)
        ensures
            s@ == album_label(*self),
    {
        let (s, lit) = match self {
            AlbumSortCriteria::Title => (String::from_str("Title"), "Title"),
            AlbumSortCriteria::Artist => (String::from_str("Artist"), "Artist"),
            AlbumSortCriteria::Year => (String::from_str("Year"), "Year"),
            AlbumSortCriteria::Format => (String::from_str("Format"), "Format"),
            AlbumSortCriteria::BitDepth => (String::from_str("Bit Depth"), "Bit Depth"),
            AlbumSortCriteria::SampleRate => (String::from_str("Sample Rate"), "Sample Rate"),
        };
        proof {
            reveal_strlit("Title");
            reveal_strlit("Artist");
            reveal_strlit("Year");
            reveal_strlit("Format");
            reveal_strlit("Bit Depth");
            reveal_strlit("Sample Rate");
            assert(s@ =~= album_label(*self));
        }
        s
    }

    /// The criterion whose label is `label`, if any.
    pub fn from_label(label: &str) -> (r: Option<AlbumSortCriteria>)
        ensures
            r matches Some(c) ==> album_label(c) == label@,
            r.is_none() ==> forall|c: AlbumSortCriteria| album_label(c) != label@,
    {
        proof {
            reveal_strlit("Title");
            reveal_strlit("Artist");
            reveal_strlit("Year");
            reveal_strlit("Format");
            reveal_strlit("Bit Depth");
            reveal_strlit("Sample Rate");
            assert("Title"@ =~= album_label(AlbumSortCriteria::Title));
            assert("Artist"@ =~= album_label(AlbumSortCriteria::Artist));
            assert("Year"@ =~= album_label(AlbumSortCriteria::Year));
            assert("Format"@ =~= album_label(AlbumSortCriteria::Format));
            assert("Bit Depth"@ =~= album_label(AlbumSortCriteria::BitDepth));
            assert("Sample Rate"@ =~= album_label(AlbumSortCriteria::SampleRate));
        }
        if same_text(label, "Title") {
            Some(AlbumSortCriteria::Title)
        } else if same_text(label, "Artist") {
            Some(AlbumSortCriteria::Artist)
        } else if same_text(label, "Year") {
            Some(AlbumSortCriteria::Year)
        } else if same_text(label, "Format") {
            Some(AlbumSortCriteria::Format)
        } else if same_text(label, "Bit Depth") {
            Some(AlbumSortCriteria::BitDepth)
        } else if same_text(label, "Sample Rate") {
            Some(AlbumSortCriteria::SampleRate)
        } else {
            None
        }
    }
}

impl ArtistSortCriteria {
    /// Numeric discriminator used as a compact widget identifier.
    pub fn discriminator(&self) -> (d: u8)
        ensures
            d == artist_disc(*self),
    {
        match self {
            ArtistSortCriteria::Name => 0,
            ArtistSortCriteria::AlbumCount => 1,
        }
    }

    /// Recover a variant from its numeric discriminator.
    pub fn from_discriminator(d: u8) -> (r: Option<ArtistSortCriteria>)
        ensures
            r.is_some() <==> d < 2,
            r matches Some(c) ==> artist_disc(c) == d,
    {
        match d {
            0 => Some(ArtistSortCriteria::Name),
            1 => Some(ArtistSortCriteria::AlbumCount),
            _ => None,
        }
    }

    /// Human-readable label (`Album Count`).
    pub fn to_string(&self) -> (s: String)
        ensures
            s@ == artist_label(*self),
    {
        let s = match self {
            ArtistSortCriteria::Name => String::from_str("Name"),
            ArtistSortCriteria::AlbumCount => String::from_str("Album Count"),
        };
        proof {
            reveal_strlit("Name");
            reveal_strlit("Album Count");
            assert(s@ =~= artist_label(*self));
        }
        s
    }

    /// The criterion whose label is `label`, if any.
    pub fn from_label(label: &str) -> (r: Option<ArtistSortCriteria>)
        ensures
            r matches Some(c) ==> artist_label(c) == label@,
            r.is_none() ==> forall|c: ArtistSortCriteria| artist_label(c) != label@,
    {
        proof {
            reveal_strlit("Name");
            reveal_strlit("Album Count");
            assert("Name"@ =~= artist_label(ArtistSortCriteria::Name));
            assert("Album Count"@ =~= artist_label(ArtistSortCriteria::AlbumCount));
        }
        if same_text(label, "Name") {
            Some(ArtistSortCriteria::Name)
        } else if same_text(label, "Album Count") {
            Some(ArtistSortCriteria::AlbumCount)
        } else {
            None
        }
    }
}

/// The default album sort: artist, year, title and format ascending, then
/// bit depth and sample rate descending.
pub open spec fn default_album_rules() -> Seq<AlbumSortItem> {
    seq![
        AlbumSortItem { criteria: AlbumSortCriteria::Artist, order: SortOrder::Ascending },
        AlbumSortItem { criteria: AlbumSortCriteria::Year, order: SortOrder::Ascending },
        AlbumSortItem { criteria: AlbumSortCriteria::Title, order: SortOrder::Ascending },
        AlbumSortItem { criteria: AlbumSortCriteria::Format, order: SortOrder::Ascending },
        AlbumSortItem { criteria: AlbumSortCriteria::BitDepth, order: SortOrder::Descending },
        AlbumSortItem { criteria: AlbumSortCriteria::SampleRate, order: SortOrder::Descending },
    ]
}

/// The default artist sort: name ascending, then album count descending.
pub open spec fn default_artist_rules() -> Seq<ArtistSortItem> {
    seq![
        ArtistSortItem { criteria: ArtistSortCriteria::Name, order: SortOrder::Ascending },
        ArtistSortItem { criteria: ArtistSortCriteria::AlbumCount, order: SortOrder::Descending },
    ]
}

/// Default albums grid sort configuration.
pub fn default_albums_sort() -> (v: Vec<AlbumSortItem>)
    ensures
        v@ == default_album_rules(),
{
    let v = vec![
        AlbumSortItem { criteria: AlbumSortCriteria::Artist, order: SortOrder::Ascending },
        AlbumSortItem { criteria: AlbumSortCriteria::Year, order: SortOrder::Ascending },
        AlbumSortItem { criteria: AlbumSortCriteria::Title, order: SortOrder::Ascending },
        AlbumSortItem { criteria: AlbumSortCriteria::Format, order: SortOrder::Ascending },
        AlbumSortItem { criteria: AlbumSortCriteria::BitDepth, order: SortOrder::Descending },
        AlbumSortItem { criteria: AlbumSortCriteria::SampleRate, order: SortOrder::Descending },
    ];
    assert(v@ =~= default_album_rules());
    v
}

/// Default artists grid sort configuration.
pub fn default_artists_sort() -> (v: Vec<ArtistSortItem>)
    ensures
        v@ == default_artist_rules(),
{
    let v = vec![
        ArtistSortItem { criteria: ArtistSortCriteria::Name, order: SortOrder::Ascending },
        ArtistSortItem { criteria: ArtistSortCriteria::AlbumCount, order: SortOrder::Descending },
    ];
    assert(v@ =~= default_artist_rules());
    v
}

/// Every album criterion's discriminator leads back to it, and the
/// discriminators are exactly `0..6`.
pub proof fn album_discriminator_round_trip(c: AlbumSortCriteria, d: u8)
    ensures
        album_disc(c) < 6,
        album_disc(c) == d ==> (d < 6 && forall|c2: AlbumSortCriteria|
            album_disc(c2) == d ==> c2 == c),
{
}

/// Every artist criterion's discriminator leads back to it, and the
/// discriminators are exactly `0..2`.
pub proof fn artist_discriminator_round_trip(c: ArtistSortCriteria, d: u8)
    ensures
        artist_disc(c) < 2,
        artist_disc(c) == d ==> (d < 2 && forall|c2: ArtistSortCriteria|
            artist_disc(c2) == d ==> c2 == c),
{
}

/// Distinct album criteria have distinct labels, so a label names one criterion.
pub proof fn album_labels_distinct(a: AlbumSortCriteria, b: AlbumSortCriteria)
    ensures
        album_label(a) == album_label(b) ==> a == b,
{
    if album_label(a) == album_label(b) && a != b {
        assert(album_label(a).len() != album_label(b).len() || album_label(a)[0] != album_label(
            b,
        )[0] || album_label(a)[1] != album_label(b)[1]);
    }
}

/// Distinct artist criteria have distinct labels.
pub proof fn artist_labels_distinct(a: ArtistSortCriteria, b: ArtistSortCriteria)
    ensures
        artist_label(a) == artist_label(b) ==> a == b,
{
    if artist_label(a) == artist_label(b) && a != b {
        assert(artist_label(a).len() != artist_label(b).len());
    }
}

} // verus!
