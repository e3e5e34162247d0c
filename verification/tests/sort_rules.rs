use oxhidifi::storage::sort_rules::{
    default_albums_sort, default_artists_sort, AlbumSortCriteria,
    AlbumSortCriteria::{Artist, BitDepth, Format, SampleRate, Title, Year},
    ArtistSortCriteria,
    ArtistSortCriteria::{AlbumCount, Name},
    SortOrder::{Ascending, Descending},
};

#[test]
fn album_criteria_discriminator_round_trips() {
    let cases = [
        (Title, 0),
        (Artist, 1),
        (Year, 2),
        (Format, 3),
        (BitDepth, 4),
        (SampleRate, 5),
    ];
    for (criteria, disc) in cases {
        assert_eq!(
            criteria.discriminator(),
            disc,
            "criteria must keep its stable discriminator"
        );
        assert_eq!(
            AlbumSortCriteria::from_discriminator(disc),
            Some(criteria),
            "discriminator {disc} must round-trip"
        );
    }
}

#[test]
fn artist_criteria_discriminator_round_trips() {
    let cases = [(Name, 0), (AlbumCount, 1)];
    for (criteria, disc) in cases {
        assert_eq!(
            criteria.discriminator(),
            disc,
            "criteria must keep its stable discriminator"
        );
        assert_eq!(
            ArtistSortCriteria::from_discriminator(disc),
            Some(criteria),
            "discriminator {disc} must round-trip"
        );
    }
}

#[test]
fn from_discriminator_returns_none_for_unknown_values() {
    assert_eq!(<AlbumSortCriteria>::from_discriminator(6), None);
    assert_eq!(<AlbumSortCriteria>::from_discriminator(255), None);
    assert_eq!(<ArtistSortCriteria>::from_discriminator(2), None);
    assert_eq!(<ArtistSortCriteria>::from_discriminator(255), None);
}

#[test]
fn album_criteria_display_labels() {
    assert_eq!(Title.to_string(), "Title");
    assert_eq!(Artist.to_string(), "Artist");
    assert_eq!(Year.to_string(), "Year");
    assert_eq!(Format.to_string(), "Format");
    assert_eq!(BitDepth.to_string(), "Bit Depth");
    assert_eq!(SampleRate.to_string(), "Sample Rate");
}

#[test]
fn artist_criteria_display_labels() {
    assert_eq!(Name.to_string(), "Name");
    assert_eq!(AlbumCount.to_string(), "Album Count");
}

#[test]
fn default_albums_sort_orders_by_artist_year_title_then_format_quality() {
    let sort = default_albums_sort();
    let criteria: Vec<_> = sort.iter().map(|item| item.criteria.clone()).collect();
    assert_eq!(
        criteria,
        vec![Artist, Year, Title, Format, BitDepth, SampleRate],
        "default album sort priority must be artist, year, title, format, bit depth, sample \
         rate"
    );
    let orders: Vec<_> = sort.iter().map(|item| item.order).collect();
    assert_eq!(
        orders,
        vec![
            Ascending, Ascending, Ascending, Ascending, Descending, Descending
        ],
        "format quality criteria must default to descending"
    );
}

#[test]
fn default_artists_sort_orders_by_name_then_album_count() {
    let sort = default_artists_sort();
    let criteria: Vec<_> = sort.iter().map(|item| item.criteria.clone()).collect();
    assert_eq!(
        criteria,
        vec![Name, AlbumCount],
        "default artist sort priority must be name, then album count"
    );
    let orders: Vec<_> = sort.iter().map(|item| item.order).collect();
    assert_eq!(orders, vec![Ascending, Descending]);
}

#[test]
fn labels_name_their_criteria() {
    for c in [Title, Artist, Year, Format, BitDepth, SampleRate] {
        assert_eq!(AlbumSortCriteria::from_label(&c.to_string()), Some(c));
    }
    for c in [Name, AlbumCount] {
        assert_eq!(ArtistSortCriteria::from_label(&c.to_string()), Some(c));
    }
    assert_eq!(AlbumSortCriteria::from_label("DR"), None);
    assert_eq!(ArtistSortCriteria::from_label("Title"), None);
}
