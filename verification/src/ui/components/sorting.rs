//! Sort preferences of the library lists: criteria labels, the sort button
//! icon, and reordering criteria by drag and drop.

use vstd::prelude::*;

use crate::text::{lemma_views_push, nat_text, push_nat, same_text, views};

verus! {

/// Represents the sorting order for library views.
#[derive(Debug, Clone, Copy, PartialEq, Eq, Hash, Structural)]
pub enum SortOrder {
    /// By artist.
    Artist,
    /// By album.
    Album,
    /// By year.
    Year,
    /// By format.
    Format,
}

/// Display label of a sort order.
pub open spec fn order_label(o: SortOrder) -> Seq<char> {
    match o {
        SortOrder::Artist => "Artist"@,
        SortOrder::Year => "Year"@,
        SortOrder::Album => "Album"@,
        SortOrder::Format => "Format"@,
    }
}

/// Returns the display label for a given sort order.
pub fn sort_order_label(order: &SortOrder) -> (s: &'static str)
    ensures
        s@ == order_label(*order),
{
    match order {
        SortOrder::Artist => "Artist",
        SortOrder::Year => "Year",
        SortOrder::Album => "Album",
        SortOrder::Format => "Format",
    }
}

impl SortOrder {
    /// Parses a sort order from its label (`Artist`, `Year`, `Album`, `Format`).
    pub fn parse_label(s: &str) -> (r: Option<SortOrder>)
        ensures
            r matches Some(o) ==> order_label(o) == s@,
            r.is_none() ==> forall|o: SortOrder| order_label(o) != s@,
    {
        proof {
            reveal_strlit("Artist");
            reveal_strlit("Year");
            reveal_strlit("Album");
            reveal_strlit("Format");
        }
        if same_text(s, "Artist") {
            Some(SortOrder::Artist)
        } else if same_text(s, "Year") {
            Some(SortOrder::Year)
        } else if same_text(s, "Album") {
            Some(SortOrder::Album)
        } else if same_text(s, "Format") {
            Some(SortOrder::Format)
        } else {
            None
        }
    }
}

impl core::str::FromStr for SortOrder {
    type Err = ();

    fn from_str(s: &str) -> (r: Result<SortOrder, ()>)
        ensures
            r matches Ok(o) ==> order_label(o) == s@,
            r is Err ==> forall|o: SortOrder| order_label(o) != s@,
    {
        match SortOrder::parse_label(s) {
            Some(o) => Ok(o),
            None => Err(()),
        }
    }
}

/// Parsing the label of a sort order gives that order back.
pub proof fn label_round_trip(o: SortOrder, p: SortOrder)
    ensures
        order_label(o) == order_label(p) ==> o == p,
{
    reveal_strlit("Artist");
    reveal_strlit("Year");
    reveal_strlit("Album");
    reveal_strlit("Format");
    if order_label(o) == order_label(p) && o != p {
        assert(order_label(o).len() != order_label(p).len() || order_label(o)[0] != order_label(
            p,
        )[0]);
    }
}

/// The sort button's icon: it offers the other direction, so ascending shows
/// the descending icon. The artists page follows the artists' direction,
/// every other page the albums'.
pub open spec fn sort_icon(page: Seq<char>, ascending_albums: bool, ascending_artists: bool) -> Seq<char> {
    let ascending = if page == "artists"@ {
        ascending_artists
    } else {
        ascending_albums
    };
    if ascending {
        "view-sort-descending-symbolic"@
    } else {
        "view-sort-ascending-symbolic"@
    }
}

/// The sort button's icon for the visible page.
pub fn sort_icon_name(page: &str, ascending_albums: bool, ascending_artists: bool) -> (s: &'static str)
    ensures
        s@ == sort_icon(page@, ascending_albums, ascending_artists),
{
    proof {
        reveal_strlit("artists");
    }
    let ascending = if same_text(page, "artists") {
        ascending_artists
    } else {
        ascending_albums
    };
    if ascending {
        "view-sort-descending-symbolic"
    } else {
        "view-sort-ascending-symbolic"
    }
}

/// Rows after moving the row at `from` to `to`: it is taken out, then put at
/// `to`, or at the end when `to` is past the remaining rows.
pub open spec fn moved<A>(s: Seq<A>, from: int, to: int) -> Seq<A> {
    let rest = s.remove(from);
    if to >= rest.len() {
        rest.push(s[from])
    } else {
        rest.insert(to, s[from])
    }
}

/// Moving a row keeps every row, each as often as before.
pub proof fn move_keeps_rows<A>(s: Seq<A>, from: int, to: int)
    requires
        0 <= from < s.len(),
        0 <= to,
    ensures
        moved(s, from, to).to_multiset() == s.to_multiset(),
        moved(s, from, to).len() == s.len(),
        moved(s, from, to)[if to < s.len() - 1 {
            to
        } else {
            s.len() - 1
        }] == s[from],
{
    broadcast use vstd::seq_lib::group_to_multiset_ensures;

    let x = s[from];
    let rest = s.remove(from);
    assert(rest.to_multiset() =~= s.to_multiset().remove(x));
    assert(s.to_multiset().count(x) > 0) by {
        assert(s.contains(x));
    }
    if to >= rest.len() {
        assert(rest.push(x).to_multiset() =~= rest.to_multiset().insert(x));
        assert(s.to_multiset().remove(x).insert(x) =~= s.to_multiset());
    } else {
        let t = rest.insert(to, x);
        assert(t.remove(to) =~= rest);
        assert(t.remove(to).to_multiset() =~= t.to_multiset().remove(t[to]));
        assert(t.contains(x)) by {
            assert(t[to] == x);
        }
        assert(t.to_multiset().count(x) > 0);
        assert(t.to_multiset().remove(x).insert(x) =~= t.to_multiset());
        assert(s.to_multiset().remove(x).insert(x) =~= s.to_multiset());
    }
}

/// Index of the last row labelled `label`, if any.
fn last_row_with_label(rows: &Vec<String>, label: &str) -> (r: Option<usize>)
    ensures
        r matches Some(i) ==> i < rows@.len() && rows@[i as int]@ == label@ && forall|j: int|
            i < j < rows@.len() ==> rows@[j]@ != label@,
        r.is_none() ==> forall|j: int| 0 <= j < rows@.len() ==> rows@[j]@ != label@,
{
    let mut found: Option<usize> = None;
    let mut i: usize = 0;
    while i < rows.len()
        invariant
            i <= rows.len(),
            found matches Some(k) ==> k < i && rows@[k as int]@ == label@ && forall|j: int|
                k < j < i ==> rows@[j]@ != label@,
            found.is_none() ==> forall|j: int| 0 <= j < i ==> rows@[j]@ != label@,
        decreases rows.len() - i,
    {
        if same_text(rows[i].as_str(), label) {
            found = Some(i);
        }
        i = i + 1;
    }
    found
}

/// Reorder the criteria rows after a drop: the last row labelled `dragged`
/// moves to the position of the row it was dropped on (`target`). Nothing
/// changes (`None`) when no row carries the label, the target is not a row,
/// or the row is dropped on itself.
pub fn reorder_rows(rows: &Vec<String>, dragged: &str, target: usize) -> (r: Option<Vec<String>>)
    ensures
        r matches Some(v) ==> exists|from: int|
            0 <= from < rows@.len() && #[trigger] rows@[from]@ == dragged@ && (forall|k: int|
                from < k < rows@.len() ==> rows@[k]@ != dragged@) && from != target && views(v@)
                == moved(views(rows@), from, target as int),
        r.is_none() ==> (target >= rows@.len() || (forall|j: int|
            0 <= j < rows@.len() ==> rows@[j]@ != dragged@) || (rows@[target as int]@ == dragged@
            && forall|k: int| target < k < rows@.len() ==> rows@[k]@ != dragged@)),
{
    if target >= rows.len() {
        return None;
    }
    let from = match last_row_with_label(rows, dragged) {
        Some(i) => i,
        None => return None,
    };
    if from == target {
        return None;
    }
    let out = crate::ui::components::sort_list::move_row(rows, from, target);
    assert(rows@[from as int]@ == dragged@);
    Some(out)
}

/// Sort orders of the rows whose labels name one, in row order.
pub open spec fn orders_of(labels: Seq<Seq<char>>) -> Seq<SortOrder>
    decreases labels.len(),
{
    if labels.len() == 0 {
        Seq::empty()
    } else {
        let prev = orders_of(labels.drop_last());
        if exists|o: SortOrder| order_label(o) == labels.last() {
            prev.push(choose|o: SortOrder| order_label(o) == labels.last())
        } else {
            prev
        }
    }
}

/// The sort orders named by the row labels, skipping unknown labels.
pub fn orders_from_labels(rows: &Vec<String>) -> (v: Vec<SortOrder>)
    ensures
        v@ == orders_of(views(rows@)),
{
    let ghost vs = views(rows@);
    let mut v: Vec<SortOrder> = Vec::new();
    let mut i: usize = 0;
    while i < rows.len()
        invariant
            i <= rows.len(),
            vs == views(rows@),
            v@ == orders_of(vs.take(i as int)),
        decreases rows.len() - i,
    {
        assert(vs.take(i as int + 1).drop_last() =~= vs.take(i as int));
        assert(vs.take(i as int + 1).last() == rows@[i as int]@);
        match SortOrder::parse_label(rows[i].as_str()) {
            Some(o) => {
                proof {
                    label_round_trip(o, choose|p: SortOrder| order_label(p) == rows@[i as int]@);
                }
                v.push(o);
            },
            None => {},
        }
        i = i + 1;
    }
    assert(vs.take(i as int) =~= vs);
    v
}

/// Row titles numbered from 1 (`1. Artist`), one per row.
pub open spec fn numbered(labels: Seq<Seq<char>>) -> Seq<Seq<char>> {
    Seq::new(labels.len(), |i: int| nat_text((i + 1) as nat) + ". "@ + labels[i])
}

/// Titles for the rows: their position from 1, a dot, and their label.
pub fn numbered_titles(rows: &Vec<String>) -> (v: Vec<String>)
    requires
        rows@.len() < u64::MAX,
    ensures
        views(v@) == numbered(views(rows@)),
{
    let ghost vs = views(rows@);
    let mut v: Vec<String> = Vec::new();
    let mut i: usize = 0;
    while i < rows.len()
        invariant
            i <= rows.len(),
            rows@.len() < u64::MAX,
            vs == views(rows@),
            views(v@) == numbered(vs).take(i as int),
        decreases rows.len() - i,
    {
        let mut s = String::new();
        push_nat(&mut s, (i as u64) + 1);
        s.append(". ");
        s.append(rows[i].as_str());
        let ghost before = v@;
        v.push(s);
        proof {
            lemma_views_push(before, v@[v@.len() - 1]);
            assert(v@ =~= before.push(v@[v@.len() - 1]));
            assert(numbered(vs).take(i as int + 1) =~= numbered(vs).take(i as int).push(
                numbered(vs)[i as int],
            ));
        }
        i = i + 1;
    }
    assert(numbered(vs).take(i as int) =~= numbered(vs));
    v
}

} // verus!
