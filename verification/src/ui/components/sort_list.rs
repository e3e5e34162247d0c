//! The reorderable sort criteria list: each row names a criterion and
//! carries a direction toggle; the list's order is the sort priority.

use vstd::prelude::*;

use crate::storage::sort_rules::{
    artist_label, artist_labels_distinct, ArtistSortCriteria, ArtistSortItem, SortOrder,
};
use crate::text::{copy_string, lemma_views_push, same_text, views};
use crate::ui::components::sorting::moved;

verus! {

/// The other direction.
pub open spec fn flipped(o: SortOrder) -> SortOrder {
    match o {
        SortOrder::Ascending => SortOrder::Descending,
        SortOrder::Descending => SortOrder::Ascending,
    }
}

/// Icon of a row's direction toggle.
pub fn order_icon(order: SortOrder) -> (s: &'static str)
    ensures
        order == SortOrder::Ascending ==> s@ == "pan-up-symbolic"@,
        order == SortOrder::Descending ==> s@ == "pan-down-symbolic"@,
{
    match order {
        SortOrder::Ascending => "pan-up-symbolic",
        SortOrder::Descending => "pan-down-symbolic",
    }
}

/// Row names after dropping the row at `source` onto the row at `target`:
/// the dragged row is taken out and put at the target's position.
pub fn move_row(rows: &Vec<String>, source: usize, target: usize) -> (r: Vec<String>)
    requires
        source < rows@.len(),
    ensures
        views(r@) == moved(views(rows@), source as int, target as int),
{
    let ghost vs = views(rows@);
    let ghost rest = vs.remove(source as int);
    let mut out: Vec<String> = Vec::new();
    let mut i: usize = 0;
    while i < rows.len()
        invariant
            i <= rows.len(),
            source < rows.len(),
            vs == views(rows@),
            rest == vs.remove(source as int),
            views(out@) == (if i <= source {
                vs.take(i as int)
            } else {
                rest.take(i as int - 1)
            }),
        decreases rows.len() - i,
    {
        if i != source {
            let ghost before = out@;
            out.push(copy_string(&rows[i]));
            proof {
                lemma_views_push(before, out@[out@.len() - 1]);
                assert(out@ =~= before.push(out@[out@.len() - 1]));
                if i < source {
                    assert(vs.take(i as int + 1) =~= vs.take(i as int).push(vs[i as int]));
                } else {
                    assert(rest.take(i as int) =~= rest.take(i as int - 1).push(vs[i as int]));
                }
            }
        } else {
            assert(rest.take(i as int + 1 - 1) =~= vs.take(i as int));
        }
        i = i + 1;
    }
    assert(rest.take(rows.len() - 1) =~= rest);
    let moving = copy_string(&rows[source]);
    let ghost before = out@;
    if target >= out.len() {
        out.push(moving);
        proof {
            lemma_views_push(before, out@[out@.len() - 1]);
            assert(out@ =~= before.push(out@[out@.len() - 1]));
        }
    } else {
        out.insert(target, moving);
        assert(views(out@) =~= rest.insert(target as int, vs[source as int]));
    }
    assert(views(out@) =~= moved(vs, source as int, target as int));
    out
}

// ---------------------------------------------------------------------------
// Albums
// ---------------------------------------------------------------------------

/// The criteria the album grid's sort list offers.
#[derive(Debug, Clone, Copy, PartialEq, Eq, Hash, Structural)]
pub enum AlbumGridSortCriteria {
    /// By album title.
    Title,
    /// By artist name.
    Artist,
    /// By release year.
    Year,
    /// By DR value.
    DRValue,
    /// By audio format.
    Format,
    /// By bits per sample.
    BitDepth,
    /// By sample rate.
    SampleRate,
}

/// The row name of an album grid criterion.
pub open spec fn album_grid_label(c: AlbumGridSortCriteria) -> Seq<char> {
    match c {
        AlbumGridSortCriteria::Title => seq!['T', 'i', 't', 'l', 'e'],
        AlbumGridSortCriteria::Artist => seq!['A', 'r', 't', 'i', 's', 't'],
        AlbumGridSortCriteria::Year => seq!['Y', 'e', 'a', 'r'],
        AlbumGridSortCriteria::DRValue => seq!['D', 'R'],
        AlbumGridSortCriteria::Format => seq!['F', 'o', 'r', 'm', 'a', 't'],
        AlbumGridSortCriteria::BitDepth => seq!['B', 'i', 't', ' ', 'D', 'e', 'p', 't', 'h'],
        AlbumGridSortCriteria::SampleRate => seq!['S', 'a', 'm', 'p', 'l', 'e', ' ', 'R', 'a', 't', 'e'],
    }
}

/// One rule of the album grid's sort.
#[derive(Debug, Clone, Copy, PartialEq, Eq, Structural)]
pub struct AlbumGridSortItem {
    /// The sorting criteria.
    pub criteria: AlbumGridSortCriteria,
    /// The sorting order.
    pub order: SortOrder,
}

impl AlbumGridSortCriteria {
    /// The row name of this criterion (`DR`, `Bit Depth`).
    pub fn to_string(&self) -> (s: String)
        ensures
            s@ == album_grid_label(*self),
    {
        let s = match self {
            AlbumGridSortCriteria::Title => String::from_str("Title"),
            AlbumGridSortCriteria::Artist => String::from_str("Artist"),
            AlbumGridSortCriteria::Year => String::from_str("Year"),
            AlbumGridSortCriteria::DRValue => String::from_str("DR"),
            AlbumGridSortCriteria::Format => String::from_str("Format"),
            AlbumGridSortCriteria::BitDepth => String::from_str("Bit Depth"),
            AlbumGridSortCriteria::SampleRate => String::from_str("Sample Rate"),
        };
        proof {
            reveal_strlit("Title");
            reveal_strlit("Artist");
            reveal_strlit("Year");
            reveal_strlit("DR");
            reveal_strlit("Format");
            reveal_strlit("Bit Depth");
            reveal_strlit("Sample Rate");
            assert(s@ =~= album_grid_label(*self));
        }
        s
    }

    /// The criterion a row name stands for, if any.
    pub fn from_label(label: &str) -> (r: Option<AlbumGridSortCriteria>)
        ensures
            r matches Some(c) ==> album_grid_label(c) == label@,
            r.is_none() ==> forall|c: AlbumGridSortCriteria| album_grid_label(c) != label@,
    {
        proof {
            reveal_strlit("Title");
            reveal_strlit("Artist");
            reveal_strlit("Year");
            reveal_strlit("DR");
            reveal_strlit("Format");
            reveal_strlit("Bit Depth");
            reveal_strlit("Sample Rate");
            assert("Title"@ =~= album_grid_label(AlbumGridSortCriteria::Title));
            assert("Artist"@ =~= album_grid_label(AlbumGridSortCriteria::Artist));
            assert("Year"@ =~= album_grid_label(AlbumGridSortCriteria::Year));
            assert("DR"@ =~= album_grid_label(AlbumGridSortCriteria::DRValue));
            assert("Format"@ =~= album_grid_label(AlbumGridSortCriteria::Format));
            assert("Bit Depth"@ =~= album_grid_label(AlbumGridSortCriteria::BitDepth));
            assert("Sample Rate"@ =~= album_grid_label(AlbumGridSortCriteria::SampleRate));
        }
        if same_text(label, "Title") {
            Some(AlbumGridSortCriteria::Title)
        } else if same_text(label, "Artist") {
            Some(AlbumGridSortCriteria::Artist)
        } else if same_text(label, "Year") {
            Some(AlbumGridSortCriteria::Year)
        } else if same_text(label, "DR") {
            Some(AlbumGridSortCriteria::DRValue)
        } else if same_text(label, "Format") {
            Some(AlbumGridSortCriteria::Format)
        } else if same_text(label, "Bit Depth") {
            Some(AlbumGridSortCriteria::BitDepth)
        } else if same_text(label, "Sample Rate") {
            Some(AlbumGridSortCriteria::SampleRate)
        } else {
            None
        }
    }
}

/// Distinct album grid criteria have distinct row names, so a name stands
/// for one criterion.
pub proof fn album_grid_labels_distinct(a: AlbumGridSortCriteria, b: AlbumGridSortCriteria)
    ensures
        album_grid_label(a) == album_grid_label(b) ==> a == b,
{
    if album_grid_label(a) == album_grid_label(b) && a != b {
        assert(album_grid_label(a).len() != album_grid_label(b).len() || album_grid_label(a)[0]
            != album_grid_label(b)[0]);
    }
}

/// The remembered direction of an album criterion: its last entry, else ascending.
pub open spec fn album_order_in(items: Seq<AlbumGridSortItem>, c: AlbumGridSortCriteria) -> SortOrder
    decreases items.len(),
{
    if items.len() == 0 {
        SortOrder::Ascending
    } else if items.last().criteria == c {
        items.last().order
    } else {
        album_order_in(items.drop_last(), c)
    }
}

/// The album sort rebuilt from row names: one rule per name that labels a
/// criterion, with its remembered direction; other names are skipped.
pub open spec fn rebuilt_albums(names: Seq<Seq<char>>, items: Seq<AlbumGridSortItem>) -> Seq<AlbumGridSortItem>
    decreases names.len(),
{
    if names.len() == 0 {
        Seq::empty()
    } else {
        let prev = rebuilt_albums(names.drop_last(), items);
        if exists|c: AlbumGridSortCriteria| album_grid_label(c) == names.last() {
            let c = choose|c: AlbumGridSortCriteria| album_grid_label(c) == names.last();
            prev.push(AlbumGridSortItem { criteria: c, order: album_order_in(items, c) })
        } else {
            prev
        }
    }
}

/// The remembered direction of an album criterion.
pub fn album_order(items: &Vec<AlbumGridSortItem>, c: AlbumGridSortCriteria) -> (o: SortOrder)
    ensures
        o == album_order_in(items@, c),
{
    let mut i: usize = items.len();
    assert(items@.take(i as int) =~= items@);
    while i > 0
        invariant
            i <= items.len(),
            album_order_in(items@, c) == album_order_in(items@.take(i as int), c),
        decreases i,
    {
        assert(items@.take(i as int).drop_last() =~= items@.take(i as int - 1));
        assert(items@.take(i as int).last() == items@[i - 1]);
        if items[i - 1].criteria == c {
            return items[i - 1].order;
        }
        i = i - 1;
    }
    SortOrder::Ascending
}

/// Reconstructs the album sort from the list's row names, in row order.
pub fn reconstruct_albums_sort(row_names: &Vec<String>, items: &Vec<AlbumGridSortItem>) -> (r: Vec<AlbumGridSortItem>)
    ensures
        r@ == rebuilt_albums(views(row_names@), items@),
{
    let ghost names = views(row_names@);
    let mut r: Vec<AlbumGridSortItem> = Vec::new();
    let mut i: usize = 0;
    while i < row_names.len()
        invariant
            i <= row_names.len(),
            names == views(row_names@),
            r@ == rebuilt_albums(names.take(i as int), items@),
        decreases row_names.len() - i,
    {
        assert(names.take(i as int + 1).drop_last() =~= names.take(i as int));
        assert(names.take(i as int + 1).last() == row_names@[i as int]@);
        match AlbumGridSortCriteria::from_label(row_names[i].as_str()) {
            Some(c) => {
                proof {
                    album_grid_labels_distinct(c, choose|d: AlbumGridSortCriteria| album_grid_label(d) == row_names@[i as int]@);
                }
                let order = album_order(items, c);
                r.push(AlbumGridSortItem { criteria: c, order });
            },
            None => {},
        }
        i = i + 1;
    }
    assert(names.take(i as int) =~= names);
    r
}

/// Whether some remembered entry is for criterion `c`.
pub open spec fn has_album_entry(items: Seq<AlbumGridSortItem>, c: AlbumGridSortCriteria) -> bool {
    exists|i: int| 0 <= i < items.len() && #[trigger] items[i].criteria == c
}

proof fn lemma_album_order_absent(items: Seq<AlbumGridSortItem>, c: AlbumGridSortCriteria)
    requires
        forall|i: int| 0 <= i < items.len() ==> #[trigger] items[i].criteria != c,
    ensures
        album_order_in(items, c) == SortOrder::Ascending,
    decreases items.len(),
{
    if items.len() > 0 {
        assert(items.last().criteria != c);
        let d = items.drop_last();
        assert forall|i: int| 0 <= i < d.len() implies #[trigger] d[i].criteria != c by {
            assert(d[i] == items[i]);
        }
        lemma_album_order_absent(d, c);
    }
}

/// Replacing the last entry for a criterion changes that criterion's
/// remembered direction and no other.
proof fn lemma_album_order_update(items: Seq<AlbumGridSortItem>, k: int, c: AlbumGridSortCriteria, o: SortOrder, d: AlbumGridSortCriteria)
    requires
        0 <= k < items.len(),
        items[k].criteria == c,
        forall|j: int| k < j < items.len() ==> #[trigger] items[j].criteria != c,
    ensures
        album_order_in(items, c) == items[k].order,
        album_order_in(items.update(k, AlbumGridSortItem { criteria: c, order: o }), d) == (if d == c {
            o
        } else {
            album_order_in(items, d)
        }),
    decreases items.len(),
{
    let u = items.update(k, AlbumGridSortItem { criteria: c, order: o });
    if k == items.len() - 1 {
        assert(u.drop_last() =~= items.drop_last());
        assert(u.last() == (AlbumGridSortItem { criteria: c, order: o }));
    } else {
        let dl = items.drop_last();
        assert(items.last().criteria != c);
        assert(u.drop_last() =~= dl.update(k, AlbumGridSortItem { criteria: c, order: o }));
        assert(u.last() == items.last());
        assert forall|j: int| k < j < dl.len() implies #[trigger] dl[j].criteria != c by {
            assert(dl[j] == items[j]);
        }
        lemma_album_order_update(dl, k, c, o, d);
    }
}

/// Flip the direction of an album criterion in the remembered directions,
/// in place: the last entry for it is rewritten, and only a criterion with
/// no entry yet adds one. Returns the new direction.
pub fn toggle_album_order(items: &mut Vec<AlbumGridSortItem>, c: AlbumGridSortCriteria) -> (o: SortOrder)
    ensures
        o == flipped(album_order_in(old(items)@, c)),
        album_order_in(final(items)@, c) == o,
        forall|d: AlbumGridSortCriteria| d != c ==> album_order_in(final(items)@, d) == album_order_in(old(items)@, d),
        final(items)@.len() == old(items)@.len() + (if has_album_entry(old(items)@, c) {
            0int
        } else {
            1int
        }),
{
    let mut i: usize = items.len();
    while i > 0
        invariant
            i <= items.len(),
            forall|j: int| i <= j < items.len() ==> #[trigger] items@[j].criteria != c,
        ensures
            i > 0 ==> items@[i - 1].criteria == c,
        decreases i,
    {
        if items[i - 1].criteria == c {
            break;
        }
        i = i - 1;
    }
    if i == 0 {
        proof {
            lemma_album_order_absent(items@, c);
        }
        let ghost before = items@;
        items.push(AlbumGridSortItem { criteria: c, order: SortOrder::Descending });
        proof {
            assert(items@.drop_last() =~= before);
            assert forall|d: AlbumGridSortCriteria| d != c implies album_order_in(items@, d) == album_order_in(before, d) by {}
        }
        SortOrder::Descending
    } else {
        let k = i - 1;
        let o = match items[k].order {
            SortOrder::Ascending => SortOrder::Descending,
            SortOrder::Descending => SortOrder::Ascending,
        };
        let ghost before = items@;
        proof {
            lemma_album_order_update(before, k as int, c, o, c);
            assert forall|d: AlbumGridSortCriteria| d != c implies album_order_in(before.update(k as int, AlbumGridSortItem { criteria: c, order: o }), d) == album_order_in(before, d) by {
                lemma_album_order_update(before, k as int, c, o, d);
            }
        }
        items.set(k, AlbumGridSortItem { criteria: c, order: o });
        assert(items@ =~= before.update(k as int, AlbumGridSortItem { criteria: c, order: o }));
        o
    }
}

proof fn lemma_album_order_distinct(items: Seq<AlbumGridSortItem>, k: int)
    requires
        0 <= k < items.len(),
        forall|i: int, j: int| 0 <= i < j < items.len() ==> items[i].criteria != items[j].criteria,
    ensures
        album_order_in(items, items[k].criteria) == items[k].order,
    decreases items.len(),
{
    if k < items.len() - 1 {
        assert(items.last().criteria != items[k].criteria);
        lemma_album_order_distinct(items.drop_last(), k);
    }
}

/// Rebuilding the album sort from its own rows gives it back: each row's
/// label names its criterion and the remembered direction is its own, as
/// long as no criterion appears twice.
pub proof fn albums_sort_round_trip(items: Seq<AlbumGridSortItem>)
    requires
        forall|i: int, j: int| 0 <= i < j < items.len() ==> items[i].criteria != items[j].criteria,
    ensures
        rebuilt_albums(items.map_values(|it: AlbumGridSortItem| album_grid_label(it.criteria)), items) == items,
{
    albums_prefix_round_trip(items, items.len() as int);
    assert(items.map_values(|it: AlbumGridSortItem| album_grid_label(it.criteria)).take(items.len() as int) =~= items.map_values(|it: AlbumGridSortItem| album_grid_label(it.criteria)));
    assert(items.take(items.len() as int) =~= items);
}

proof fn albums_prefix_round_trip(items: Seq<AlbumGridSortItem>, k: int)
    requires
        0 <= k <= items.len(),
        forall|i: int, j: int| 0 <= i < j < items.len() ==> items[i].criteria != items[j].criteria,
    ensures
        rebuilt_albums(items.map_values(|it: AlbumGridSortItem| album_grid_label(it.criteria)).take(k), items) == items.take(k),
    decreases k,
{
    let names = items.map_values(|it: AlbumGridSortItem| album_grid_label(it.criteria));
    if k > 0 {
        albums_prefix_round_trip(items, k - 1);
        assert(names.take(k).drop_last() =~= names.take(k - 1));
        assert(names.take(k).last() == album_grid_label(items[k - 1].criteria));
        let c = choose|c: AlbumGridSortCriteria| #[trigger] album_grid_label(c) == album_grid_label(items[k - 1].criteria);
        album_grid_labels_distinct(c, items[k - 1].criteria);
        lemma_album_order_distinct(items, k - 1);
        assert(items.take(k) =~= items.take(k - 1).push(items[k - 1]));
    } else {
        assert(names.take(0) =~= Seq::<Seq<char>>::empty());
        assert(items.take(0) =~= Seq::<AlbumGridSortItem>::empty());
    }
}

// ---------------------------------------------------------------------------
// Artists
// ---------------------------------------------------------------------------

/// The remembered direction of an artist criterion: its last entry, else ascending.
pub open spec fn artist_order_in(items: Seq<ArtistSortItem>, c: ArtistSortCriteria) -> SortOrder
    decreases items.len(),
{
    if items.len() == 0 {
        SortOrder::Ascending
    } else if items.last().criteria == c {
        items.last().order
    } else {
        artist_order_in(items.drop_last(), c)
    }
}

/// The artist sort rebuilt from row names.
pub open spec fn rebuilt_artists(names: Seq<Seq<char>>, items: Seq<ArtistSortItem>) -> Seq<ArtistSortItem>
    decreases names.len(),
{
    if names.len() == 0 {
        Seq::empty()
    } else {
        let prev = rebuilt_artists(names.drop_last(), items);
        if exists|c: ArtistSortCriteria| artist_label(c) == names.last() {
            let c = choose|c: ArtistSortCriteria| artist_label(c) == names.last();
            prev.push(ArtistSortItem { criteria: c, order: artist_order_in(items, c) })
        } else {
            prev
        }
    }
}

/// The remembered direction of an artist criterion.
pub fn artist_order(items: &Vec<ArtistSortItem>, c: ArtistSortCriteria) -> (o: SortOrder)
    ensures
        o == artist_order_in(items@, c),
{
    let mut i: usize = items.len();
    assert(items@.take(i as int) =~= items@);
    while i > 0
        invariant
            i <= items.len(),
            artist_order_in(items@, c) == artist_order_in(items@.take(i as int), c),
        decreases i,
    {
        assert(items@.take(i as int).drop_last() =~= items@.take(i as int - 1));
        assert(items@.take(i as int).last() == items@[i - 1]);
        if items[i - 1].criteria == c {
            return items[i - 1].order;
        }
        i = i - 1;
    }
    SortOrder::Ascending
}

/// Reconstructs the artist sort from the list's row names, in row order.
pub fn reconstruct_artists_sort(row_names: &Vec<String>, items: &Vec<ArtistSortItem>) -> (r: Vec<ArtistSortItem>)
    ensures
        r@ == rebuilt_artists(views(row_names@), items@),
{
    let ghost names = views(row_names@);
    let mut r: Vec<ArtistSortItem> = Vec::new();
    let mut i: usize = 0;
    while i < row_names.len()
        invariant
            i <= row_names.len(),
            names == views(row_names@),
            r@ == rebuilt_artists(names.take(i as int), items@),
        decreases row_names.len() - i,
    {
        assert(names.take(i as int + 1).drop_last() =~= names.take(i as int));
        assert(names.take(i as int + 1).last() == row_names@[i as int]@);
        match ArtistSortCriteria::from_label(row_names[i].as_str()) {
            Some(c) => {
                proof {
                    artist_labels_distinct(c, choose|d: ArtistSortCriteria| artist_label(d) == row_names@[i as int]@);
                }
                let order = artist_order(items, c);
                r.push(ArtistSortItem { criteria: c, order });
            },
            None => {},
        }
        i = i + 1;
    }
    assert(names.take(i as int) =~= names);
    r
}

/// Whether some remembered entry is for criterion `c`.
pub open spec fn has_artist_entry(items: Seq<ArtistSortItem>, c: ArtistSortCriteria) -> bool {
    exists|i: int| 0 <= i < items.len() && #[trigger] items[i].criteria == c
}

proof fn lemma_artist_order_absent(items: Seq<ArtistSortItem>, c: ArtistSortCriteria)
    requires
        forall|i: int| 0 <= i < items.len() ==> #[trigger] items[i].criteria != c,
    ensures
        artist_order_in(items, c) == SortOrder::Ascending,
    decreases items.len(),
{
    if items.len() > 0 {
        assert(items.last().criteria != c);
        let d = items.drop_last();
        assert forall|i: int| 0 <= i < d.len() implies #[trigger] d[i].criteria != c by {
            assert(d[i] == items[i]);
        }
        lemma_artist_order_absent(d, c);
    }
}

/// Replacing the last entry for a criterion changes that criterion's
/// remembered direction and no other.
proof fn lemma_artist_order_update(items: Seq<ArtistSortItem>, k: int, c: ArtistSortCriteria, o: SortOrder, d: ArtistSortCriteria)
    requires
        0 <= k < items.len(),
        items[k].criteria == c,
        forall|j: int| k < j < items.len() ==> #[trigger] items[j].criteria != c,
    ensures
        artist_order_in(items, c) == items[k].order,
        artist_order_in(items.update(k, ArtistSortItem { criteria: c, order: o }), d) == (if d == c {
            o
        } else {
            artist_order_in(items, d)
        }),
    decreases items.len(),
{
    let u = items.update(k, ArtistSortItem { criteria: c, order: o });
    if k == items.len() - 1 {
        assert(u.drop_last() =~= items.drop_last());
        assert(u.last() == (ArtistSortItem { criteria: c, order: o }));
    } else {
        let dl = items.drop_last();
        assert(items.last().criteria != c);
        assert(u.drop_last() =~= dl.update(k, ArtistSortItem { criteria: c, order: o }));
        assert(u.last() == items.last());
        assert forall|j: int| k < j < dl.len() implies #[trigger] dl[j].criteria != c by {
            assert(dl[j] == items[j]);
        }
        lemma_artist_order_update(dl, k, c, o, d);
    }
}

/// Flip the direction of an artist criterion in the remembered directions,
/// in place: the last entry for it is rewritten, and only a criterion with
/// no entry yet adds one. Returns the new direction.
pub fn toggle_artist_order(items: &mut Vec<ArtistSortItem>, c: ArtistSortCriteria) -> (o: SortOrder)
    ensures
        o == flipped(artist_order_in(old(items)@, c)),
        artist_order_in(final(items)@, c) == o,
        forall|d: ArtistSortCriteria| d != c ==> artist_order_in(final(items)@, d) == artist_order_in(old(items)@, d),
        final(items)@.len() == old(items)@.len() + (if has_artist_entry(old(items)@, c) {
            0int
        } else {
            1int
        }),
{
    let mut i: usize = items.len();
    while i > 0
        invariant
            i <= items.len(),
            forall|j: int| i <= j < items.len() ==> #[trigger] items@[j].criteria != c,
        ensures
            i > 0 ==> items@[i - 1].criteria == c,
        decreases i,
    {
        if items[i - 1].criteria == c {
            break;
        }
        i = i - 1;
    }
    if i == 0 {
        proof {
            lemma_artist_order_absent(items@, c);
        }
        let ghost before = items@;
        items.push(ArtistSortItem { criteria: c, order: SortOrder::Descending });
        proof {
            assert(items@.drop_last() =~= before);
            assert forall|d: ArtistSortCriteria| d != c implies artist_order_in(items@, d) == artist_order_in(before, d) by {}
        }
        SortOrder::Descending
    } else {
        let k = i - 1;
        let o = match items[k].order {
            SortOrder::Ascending => SortOrder::Descending,
            SortOrder::Descending => SortOrder::Ascending,
        };
        let ghost before = items@;
        proof {
            lemma_artist_order_update(before, k as int, c, o, c);
            assert forall|d: ArtistSortCriteria| d != c implies artist_order_in(before.update(k as int, ArtistSortItem { criteria: c, order: o }), d) == artist_order_in(before, d) by {
                lemma_artist_order_update(before, k as int, c, o, d);
            }
        }
        items.set(k, ArtistSortItem { criteria: c, order: o });
        assert(items@ =~= before.update(k as int, ArtistSortItem { criteria: c, order: o }));
        o
    }
}

proof fn lemma_artist_order_distinct(items: Seq<ArtistSortItem>, k: int)
    requires
        0 <= k < items.len(),
        forall|i: int, j: int| 0 <= i < j < items.len() ==> items[i].criteria != items[j].criteria,
    ensures
        artist_order_in(items, items[k].criteria) == items[k].order,
    decreases items.len(),
{
    if k < items.len() - 1 {
        assert(items.last().criteria != items[k].criteria);
        lemma_artist_order_distinct(items.drop_last(), k);
    }
}

/// Rebuilding the artist sort from its own rows gives it back.
pub proof fn artists_sort_round_trip(items: Seq<ArtistSortItem>)
    requires
        forall|i: int, j: int| 0 <= i < j < items.len() ==> items[i].criteria != items[j].criteria,
    ensures
        rebuilt_artists(items.map_values(|it: ArtistSortItem| artist_label(it.criteria)), items) == items,
{
    artists_prefix_round_trip(items, items.len() as int);
    assert(items.map_values(|it: ArtistSortItem| artist_label(it.criteria)).take(items.len() as int) =~= items.map_values(|it: ArtistSortItem| artist_label(it.criteria)));
    assert(items.take(items.len() as int) =~= items);
}

proof fn artists_prefix_round_trip(items: Seq<ArtistSortItem>, k: int)
    requires
        0 <= k <= items.len(),
        forall|i: int, j: int| 0 <= i < j < items.len() ==> items[i].criteria != items[j].criteria,
    ensures
        rebuilt_artists(items.map_values(|it: ArtistSortItem| artist_label(it.criteria)).take(k), items) == items.take(k),
    decreases k,
{
    let names = items.map_values(|it: ArtistSortItem| artist_label(it.criteria));
    if k > 0 {
        artists_prefix_round_trip(items, k - 1);
        assert(names.take(k).drop_last() =~= names.take(k - 1));
        assert(names.take(k).last() == artist_label(items[k - 1].criteria));
        let c = choose|c: ArtistSortCriteria| #[trigger] artist_label(c) == artist_label(items[k - 1].criteria);
        artist_labels_distinct(c, items[k - 1].criteria);
        lemma_artist_order_distinct(items, k - 1);
        assert(items.take(k) =~= items.take(k - 1).push(items[k - 1]));
    } else {
        assert(names.take(0) =~= Seq::<Seq<char>>::empty());
        assert(items.take(0) =~= Seq::<ArtistSortItem>::empty());
    }
}

} // verus!
