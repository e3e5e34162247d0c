//! Empty library state: its message, the scan progress it shows, and the
//! grouping of scanned files into albums.

use vstd::prelude::*;

use crate::text::{copy_string, opt_view, push_nat, same_text, views, lemma_views_push};

verus! {

/// Progress update interval for library scanning (in number of albums processed).
pub const SCAN_PROGRESS_INTERVAL: usize = 20;

/// Configuration for the empty state display.
#[derive(Debug, Clone, Copy, PartialEq, Eq, Structural)]
pub struct EmptyStateConfig {
    /// Whether this empty state is for albums or artists.
    pub is_album_view: bool,
}

/// The headline of an empty library view.
pub fn empty_message(config: EmptyStateConfig) -> (s: &'static str)
    ensures
        config.is_album_view ==> s@ == "No albums found"@,
        !config.is_album_view ==> s@ == "No artists found"@,
{
    if config.is_album_view {
        "No albums found"
    } else {
        "No artists found"
    }
}

/// The description under the headline.
pub fn empty_description() -> (s: &'static str)
    ensures
        s@ == "Add music folders to your library to get started"@,
{
    "Add music folders to your library to get started"
}

/// Whether progress is reported after `current` of `total` albums: every
/// `SCAN_PROGRESS_INTERVAL` albums and after the last one.
pub open spec fn reports_progress(current: nat, total: nat) -> bool {
    current % (SCAN_PROGRESS_INTERVAL as nat) == 0 || current == total
}

/// Whether progress is reported after `current` of `total` albums.
pub fn should_report_progress(current: usize, total: usize) -> (r: bool)
    ensures
        r == reports_progress(current as nat, total as nat),
{
    current % SCAN_PROGRESS_INTERVAL == 0 || current == total
}

/// The progress label: `Processing: <current>/<total> albums`.
pub fn progress_text(current: usize, total: usize) -> (s: String)
    ensures
        s@ == "Processing: "@ + crate::text::nat_text(current as nat) + "/"@
            + crate::text::nat_text(total as nat) + " albums"@,
{
    let mut s = String::from_str("Processing: ");
    push_nat(&mut s, current as u64);
    s.append("/");
    push_nat(&mut s, total as u64);
    s.append(" albums");
    s
}

/// The last album of a scan is always reported, so the label ends on the total.
pub proof fn last_album_reported(total: nat)
    ensures
        reports_progress(total, total),
{
}

/// Visibility of the empty state's widgets, and whether a scan runs.
#[derive(Debug, Clone, Copy, PartialEq, Eq, Structural)]
pub struct ScanView {
    /// The whole empty state.
    pub widget: bool,
    /// The add-folder button.
    pub add_button: bool,
    /// The headline.
    pub message: bool,
    /// The description.
    pub description: bool,
    /// The spinner.
    pub spinner: bool,
    /// The progress bar.
    pub progress_bar: bool,
    /// The progress label.
    pub progress_label: bool,
    /// The cancel button.
    pub cancel_button: bool,
    /// Whether a scan is in progress.
    pub is_scanning: bool,
    /// Whether a cancellation token for the scanner's event listener exists.
    pub has_cancel_token: bool,
}

/// Library events the empty state follows.
#[derive(Debug, Clone, Copy, PartialEq, Eq, Structural)]
pub enum ScanEvent {
    /// Scanning started (`true`) or stopped (`false`).
    ScanningChanged(bool),
    /// The library data changed.
    DataChanged,
    /// `current` of `total` albums are processed.
    Progress {
        /// Albums processed.
        current: usize,
        /// Albums in the scan.
        total: usize,
    },
}

/// The view while scanning: progress shown, the empty-state prompt hidden.
pub open spec fn scanning_view(v: ScanView) -> ScanView {
    ScanView {
        add_button: false,
        message: false,
        description: false,
        spinner: true,
        progress_bar: true,
        progress_label: true,
        cancel_button: true,
        is_scanning: true,
        ..v
    }
}

/// The view after a scan: progress hidden.
pub open spec fn idle_view(v: ScanView) -> ScanView {
    ScanView {
        spinner: false,
        progress_bar: false,
        progress_label: false,
        cancel_button: false,
        is_scanning: false,
        ..v
    }
}

/// What the progress label reads after an event, when it changes.
#[derive(Debug, Clone)]
pub enum ProgressLabel {
    /// Leave the label as it is.
    Unchanged,
    /// Show this text.
    Text(String),
}

impl ScanView {
    /// The state a new empty state starts in: the prompt (headline,
    /// description, add button) shown, the spinner, progress bar, progress
    /// label and cancel button present but hidden, no scan running and no
    /// cancellation token yet.
    pub fn initial() -> (v: ScanView)
        ensures
            v.widget,
            v.add_button,
            v.message,
            v.description,
            !v.spinner,
            !v.progress_bar,
            !v.progress_label,
            !v.cancel_button,
            !v.is_scanning,
            !v.has_cancel_token,
    {
        ScanView {
            widget: true,
            add_button: true,
            message: true,
            description: true,
            spinner: false,
            progress_bar: false,
            progress_label: false,
            cancel_button: false,
            is_scanning: false,
            has_cancel_token: false,
        }
    }

    /// Makes sure a cancellation token exists before the add button is wired;
    /// returns whether one had to be created.
    pub fn ensure_cancel_token(&mut self) -> (created: bool)
        ensures
            created == !old(self).has_cancel_token,
            *final(self) == (ScanView { has_cancel_token: true, ..*old(self) }),
    {
        let created = !self.has_cancel_token;
        self.has_cancel_token = true;
        created
    }

    /// Stops the scanner's event listener: signals cancellation through the
    /// token when there is one, then drops it. Returns whether a token was
    /// signalled.
    pub fn stop_scanner_event_listener(&mut self) -> (signalled: bool)
        ensures
            signalled == old(self).has_cancel_token,
            *final(self) == (ScanView { has_cancel_token: false, ..*old(self) }),
    {
        let signalled = self.has_cancel_token;
        self.has_cancel_token = false;
        signalled
    }

    /// Follow a library event; returns the new progress label text, if any.
    /// Scan progress leaves visibility alone and updates the label.
    pub fn on_event(&mut self, event: ScanEvent) -> (label: ProgressLabel)
        ensures
            event == ScanEvent::ScanningChanged(true) ==> (*final(self) == scanning_view(*old(self))
                && (label matches ProgressLabel::Text(t) && t@ == "Scanning library..."@)),
            (event == ScanEvent::ScanningChanged(false) || event == ScanEvent::DataChanged) ==> (
            *final(self) == idle_view(*old(self)) && label is Unchanged),
            event matches ScanEvent::Progress { current, total } ==> (*final(self) == *old(self)
                && (label matches ProgressLabel::Text(t) && t@ == "Processing: "@
                + crate::text::nat_text(current as nat) + "/"@ + crate::text::nat_text(total as nat)
                + " albums"@)),
    {
        match event {
            ScanEvent::ScanningChanged(true) => {
                self.add_button = false;
                self.message = false;
                self.description = false;
                self.spinner = true;
                self.progress_bar = true;
                self.progress_label = true;
                self.cancel_button = true;
                self.is_scanning = true;
                ProgressLabel::Text(String::from_str("Scanning library..."))
            },
            ScanEvent::ScanningChanged(false) | ScanEvent::DataChanged => {
                self.spinner = false;
                self.progress_bar = false;
                self.progress_label = false;
                self.cancel_button = false;
                self.is_scanning = false;
                ProgressLabel::Unchanged
            },
            ScanEvent::Progress { current, total } => ProgressLabel::Text(
                progress_text(current, total),
            ),
        }
    }

    /// Follow the library contents: the empty state shows exactly when its
    /// view's list is empty, and then shows the prompt with progress reset.
    pub fn on_library_state(&mut self, is_empty: bool)
        ensures
            final(self).widget == is_empty,
            is_empty ==> *final(self) == (ScanView {
                widget: true,
                add_button: true,
                message: true,
                description: true,
                ..idle_view(*old(self))
            }),
            !is_empty ==> *final(self) == (ScanView { widget: false, ..*old(self) }),
    {
        self.widget = is_empty;
        if is_empty {
            self.spinner = false;
            self.progress_bar = false;
            self.progress_label = false;
            self.cancel_button = false;
            self.is_scanning = false;
            self.add_button = true;
            self.message = true;
            self.description = true;
        }
    }
}

/// Whether the scan stops before the next album: the user cancelled, or the
/// application reports that scanning has been switched off.
pub fn scan_cancelled(cancel_requested: bool, app_scanning: Option<bool>) -> (r: bool)
    ensures
        r == (cancel_requested || app_scanning == Some(false)),
{
    cancel_requested || match app_scanning {
        Some(s) => !s,
        None => false,
    }
}

// ---------------------------------------------------------------------------
// Grouping scanned files by album directory
// ---------------------------------------------------------------------------

/// Names what `std::path::Path::parent` gives for a path's text.
pub uninterp spec fn path_parent(path: Seq<char>) -> Option<Seq<char>>;

/// The parent directory of a path (`std::path::Path::parent`); its result is
/// the one `path_parent` names, and nothing more is claimed of it.
#[verifier::external_body]
fn parent_dir(path: &str) -> (r: Option<String>)
    ensures
        opt_view(r) == path_parent(path@),
{
    match std::path::Path::new(path).parent() {
        Some(d) => Some(d.to_string_lossy().into_owned()),
        None => None,
    }
}

/// Names what `std::path::Path::components` gives for a path's text, each
/// component taken as its text.
pub uninterp spec fn path_components(path: Seq<char>) -> Seq<Seq<char>>;

/// The components of a path (`std::path::Path::components`), each as its
/// text; their sequence is the one `path_components` names, and nothing more
/// is claimed of it. (`Path` equality is the equality of these components,
/// so `a//b` and `a/./b` name the same directory as `a/b`.)
#[verifier::external_body]
fn components_of(path: &str) -> (r: Vec<String>)
    ensures
        views(r@) == path_components(path@),
{
    let mut parts: Vec<String> = Vec::new();
    for c in std::path::Path::new(path).components() {
        parts.push(c.as_os_str().to_string_lossy().into_owned());
    }
    parts
}

/// The album a file belongs to: the components of its parent directory, if
/// it has one.
pub open spec fn album_key(file: Seq<char>) -> Option<Seq<Seq<char>>> {
    match path_parent(file) {
        Some(p) => Some(path_components(p)),
        None => None,
    }
}

/// The components of a directory's path, which decide which album it is.
pub open spec fn dir_key(dir: String) -> Seq<Seq<char>> {
    path_components(dir@)
}

/// The files, in order, that belong to the album `key`.
pub open spec fn files_under(files: Seq<Seq<char>>, key: Seq<Seq<char>>) -> Seq<Seq<char>>
    decreases files.len(),
{
    if files.len() == 0 {
        Seq::empty()
    } else {
        let prev = files_under(files.drop_last(), key);
        if album_key(files.last()) == Some(key) {
            prev.push(files.last())
        } else {
            prev
        }
    }
}

/// Scanned files grouped by album directory.
#[derive(Debug, Clone)]
pub struct AlbumGroups {
    /// The album directories, one per album, each spelled as the parent of
    /// the album's first file.
    pub dirs: Vec<String>,
    /// The files of each directory, in scan order.
    pub files: Vec<Vec<String>>,
}

/// Whether some directory of the list is the album `key`.
pub open spec fn has_dir(dirs: Seq<String>, key: Seq<Seq<char>>) -> bool {
    exists|i: int| 0 <= i < dirs.len() && #[trigger] dir_key(dirs[i]) == key
}

/// Whether some file belongs to the album `key`.
pub open spec fn some_parent(files: Seq<Seq<char>>, key: Seq<Seq<char>>) -> bool {
    exists|j: int| 0 <= j < files.len() && #[trigger] album_key(files[j]) == Some(key)
}

/// The grouping is exact: one group per album directory (directories are the
/// same album when their paths have the same components), each with all the
/// files of that album in scan order and named by its first file's parent;
/// files without a parent are left out.
pub open spec fn groups_files(g: AlbumGroups, files: Seq<Seq<char>>) -> bool {
    &&& g.dirs@.len() == g.files@.len()
    &&& forall|i: int| 0 <= i < g.dirs@.len() ==> views(#[trigger] g.files@[i]@) == files_under(files, dir_key(g.dirs@[i]))
    &&& forall|i: int| 0 <= i < g.dirs@.len() ==> g.files@[i]@.len() > 0 && path_parent(#[trigger] g.files@[i]@[0]@) == Some(g.dirs@[i]@)
    &&& forall|i: int, j: int| 0 <= i < j < g.dirs@.len() ==> dir_key(g.dirs@[i]) != dir_key(g.dirs@[j])
    &&& forall|k: Seq<Seq<char>>| #![trigger has_dir(g.dirs@, k)] #![trigger some_parent(files, k)] has_dir(g.dirs@, k) <==> some_parent(files, k)
}

proof fn lemma_files_under_step(files: Seq<Seq<char>>, n: int, k: Seq<Seq<char>>)
    requires
        0 <= n < files.len(),
    ensures
        files_under(files.take(n + 1), k) == (if album_key(files[n]) == Some(k) {
            files_under(files.take(n), k).push(files[n])
        } else {
            files_under(files.take(n), k)
        }),
{
    assert(files.take(n + 1).drop_last() =~= files.take(n));
    assert(files.take(n + 1).last() == files[n]);
}

/// Whether two component lists are the same.
fn same_parts(a: &Vec<String>, b: &Vec<String>) -> (r: bool)
    ensures
        r == (views(a@) == views(b@)),
{
    if a.len() != b.len() {
        assert(views(a@).len() != views(b@).len());
        return false;
    }
    let mut i: usize = 0;
    while i < a.len()
        invariant
            i <= a.len(),
            a.len() == b.len(),
            forall|j: int| 0 <= j < i ==> a@[j]@ == b@[j]@,
        decreases a.len() - i,
    {
        if !same_text(a[i].as_str(), b[i].as_str()) {
            assert(views(a@)[i as int] != views(b@)[i as int]);
            return false;
        }
        i = i + 1;
    }
    assert(views(a@) =~= views(b@));
    true
}

/// Index of the component list equal to `key`, if any.
fn find_key(keys: &Vec<Vec<String>>, key: &Vec<String>) -> (r: Option<usize>)
    ensures
        r matches Some(i) ==> i < keys@.len() && views(keys@[i as int]@) == views(key@),
        r.is_none() ==> forall|i: int| 0 <= i < keys@.len() ==> views(#[trigger] keys@[i]@) != views(key@),
{
    let mut i: usize = 0;
    while i < keys.len()
        invariant
            i <= keys.len(),
            forall|j: int| 0 <= j < i ==> views(#[trigger] keys@[j]@) != views(key@),
        decreases keys.len() - i,
    {
        if same_parts(&keys[i], key) {
            return Some(i);
        }
        i = i + 1;
    }
    None
}

/// Group scanned files by their parent directory, the album they belong to.
pub fn group_by_album(files: &Vec<String>) -> (g: AlbumGroups)
    ensures
        groups_files(g, views(files@)),
{
    let ghost fs = views(files@);
    let mut dirs: Vec<String> = Vec::new();
    let mut keys: Vec<Vec<String>> = Vec::new();
    let mut members: Vec<Vec<String>> = Vec::new();
    let mut n: usize = 0;
    while n < files.len()
        invariant
            n <= files.len(),
            fs == views(files@),
            dirs@.len() == members@.len(),
            dirs@.len() == keys@.len(),
            forall|i: int| 0 <= i < dirs@.len() ==> views(#[trigger] keys@[i]@) == dir_key(dirs@[i]),
            forall|i: int| 0 <= i < dirs@.len() ==> views(#[trigger] members@[i]@) == files_under(fs.take(n as int), dir_key(dirs@[i])),
            forall|i: int| 0 <= i < dirs@.len() ==> members@[i]@.len() > 0 && path_parent(#[trigger] members@[i]@[0]@) == Some(dirs@[i]@),
            forall|i: int, j: int| 0 <= i < j < dirs@.len() ==> dir_key(dirs@[i]) != dir_key(dirs@[j]),
            forall|k: Seq<Seq<char>>| #![trigger has_dir(dirs@, k)] #![trigger some_parent(fs.take(n as int), k)] has_dir(dirs@, k) <==> some_parent(fs.take(n as int), k),
        decreases files.len() - n,
    {
        let f = &files[n];
        assert(fs[n as int] == f@);
        let parent = parent_dir(f.as_str());
        let ghost old_dirs = dirs@;
        let ghost old_keys = keys@;
        let ghost old_members = members@;
        proof {
            assert forall|k: Seq<Seq<char>>| #![auto] true implies files_under(fs.take(n as int + 1), k)
                == (if album_key(fs[n as int]) == Some(k) {
                files_under(fs.take(n as int), k).push(fs[n as int])
            } else {
                files_under(fs.take(n as int), k)
            }) by {
                lemma_files_under_step(fs, n as int, k);
            }
        }
        match parent {
            None => {
                assert(album_key(fs[n as int]).is_none());
                assert forall|k: Seq<Seq<char>>| #![trigger has_dir(dirs@, k)] #![trigger some_parent(fs.take(n as int + 1), k)] has_dir(dirs@, k) <==> some_parent(fs.take(n as int + 1), k) by {
                    lemma_some_parent_step(fs, n as int, k);
                }
            },
            Some(p) => {
                let key = components_of(p.as_str());
                let ghost kv = views(key@);
                assert(album_key(fs[n as int]) == Some(kv));
                match find_key(&keys, &key) {
                    Some(idx) => {
                        let copy = copy_string(f);
                        let ghost before = members@[idx as int]@;
                        assert(path_parent(members@[idx as int]@[0]@) == Some(dirs@[idx as int]@));
                        members[idx].push(copy);
                        proof {
                            lemma_views_push(before, members@[idx as int]@.last());
                            assert(members@[idx as int]@ =~= before.push(members@[idx as int]@.last()));
                            assert(members@[idx as int]@[0] == before[0]);
                            assert(dir_key(dirs@[idx as int]) == kv);
                            assert forall|i: int| 0 <= i < dirs@.len() implies views(#[trigger] members@[i]@) == files_under(fs.take(n as int + 1), dir_key(dirs@[i])) by {
                                if i != idx {
                                    assert(members@[i] == old_members[i]);
                                }
                            }
                            assert forall|i: int| 0 <= i < dirs@.len() implies members@[i]@.len() > 0 && path_parent(#[trigger] members@[i]@[0]@) == Some(dirs@[i]@) by {
                                if i != idx {
                                    assert(members@[i] == old_members[i]);
                                }
                            }
                            assert forall|k: Seq<Seq<char>>| #![trigger has_dir(dirs@, k)] #![trigger some_parent(fs.take(n as int + 1), k)] has_dir(dirs@, k) <==> some_parent(fs.take(n as int + 1), k) by {
                                lemma_some_parent_step(fs, n as int, k);
                                if album_key(fs[n as int]) == Some(k) {
                                    assert(dir_key(dirs@[idx as int]) == k);
                                }
                            }
                        }
                    },
                    None => {
                        let copy = copy_string(f);
                        let mut group: Vec<String> = Vec::new();
                        group.push(copy);
                        let ghost pv = p;
                        proof {
                            assert(dir_key(pv) == kv);
                            assert forall|i: int| 0 <= i < old_dirs.len() implies dir_key(#[trigger] old_dirs[i]) != kv by {
                                assert(views(old_keys[i]@) != kv);
                            }
                        }
                        dirs.push(p);
                        keys.push(key);
                        members.push(group);
                        proof {
                            assert(files_under(fs.take(n as int), kv) =~= Seq::<Seq<char>>::empty()) by {
                                if files_under(fs.take(n as int), kv).len() > 0 {
                                    lemma_files_under_members(fs.take(n as int), kv);
                                    assert(some_parent(fs.take(n as int), kv));
                                    assert(has_dir(old_dirs, kv));
                                    let i = choose|i: int| 0 <= i < old_dirs.len() && #[trigger] dir_key(old_dirs[i]) == kv;
                                    assert(dir_key(old_dirs[i]) != kv);
                                }
                            }
                            assert(views(members@[members@.len() - 1]@) =~= seq![fs[n as int]]);
                            assert(dirs@[dirs@.len() - 1] == pv);
                            assert forall|i: int| 0 <= i < dirs@.len() implies views(#[trigger] keys@[i]@) == dir_key(dirs@[i]) by {
                                if i < old_dirs.len() {
                                    assert(keys@[i] == old_keys[i]);
                                    assert(dirs@[i] == old_dirs[i]);
                                }
                            }
                            assert forall|i: int| 0 <= i < dirs@.len() implies views(#[trigger] members@[i]@) == files_under(fs.take(n as int + 1), dir_key(dirs@[i])) by {
                                if i < old_dirs.len() {
                                    assert(members@[i] == old_members[i]);
                                    assert(dirs@[i] == old_dirs[i]);
                                }
                            }
                            assert forall|i: int| 0 <= i < dirs@.len() implies members@[i]@.len() > 0 && path_parent(#[trigger] members@[i]@[0]@) == Some(dirs@[i]@) by {
                                if i < old_dirs.len() {
                                    assert(members@[i] == old_members[i]);
                                    assert(dirs@[i] == old_dirs[i]);
                                }
                            }
                            assert forall|i: int, j: int| 0 <= i < j < dirs@.len() implies dir_key(dirs@[i]) != dir_key(dirs@[j]) by {
                                if j < old_dirs.len() {
                                    assert(dirs@[i] == old_dirs[i]);
                                    assert(dirs@[j] == old_dirs[j]);
                                } else {
                                    assert(dirs@[i] == old_dirs[i]);
                                    assert(dir_key(old_dirs[i]) != kv);
                                }
                            }
                            assert forall|k: Seq<Seq<char>>| #![trigger has_dir(dirs@, k)] #![trigger some_parent(fs.take(n as int + 1), k)] has_dir(dirs@, k) <==> some_parent(fs.take(n as int + 1), k) by {
                                lemma_some_parent_step(fs, n as int, k);
                                if has_dir(dirs@, k) {
                                    let i = choose|i: int| 0 <= i < dirs@.len() && #[trigger] dir_key(dirs@[i]) == k;
                                    if i < old_dirs.len() {
                                        assert(dirs@[i] == old_dirs[i]);
                                        assert(dir_key(old_dirs[i]) == k);
                                    }
                                }
                                if has_dir(old_dirs, k) {
                                    let i = choose|i: int| 0 <= i < old_dirs.len() && #[trigger] dir_key(old_dirs[i]) == k;
                                    assert(dirs@[i] == old_dirs[i]);
                                    assert(dir_key(dirs@[i]) == k);
                                }
                                if kv == k {
                                    assert(dir_key(dirs@[dirs@.len() - 1]) == k);
                                }
                            }
                        }
                    },
                }
            },
        }
        n = n + 1;
    }
    assert(fs.take(n as int) =~= fs);
    AlbumGroups { dirs, files: members }
}

proof fn lemma_some_parent_step(files: Seq<Seq<char>>, n: int, k: Seq<Seq<char>>)
    requires
        0 <= n < files.len(),
    ensures
        some_parent(files.take(n + 1), k) <==> (some_parent(files.take(n), k) || album_key(files[n]) == Some(k)),
{
    if some_parent(files.take(n + 1), k) {
        let j = choose|j: int| 0 <= j < files.take(n + 1).len() && #[trigger] album_key(files.take(n + 1)[j]) == Some(k);
        if j < n {
            assert(files.take(n)[j] == files[j]);
        }
    }
    if some_parent(files.take(n), k) {
        let j = choose|j: int| 0 <= j < files.take(n).len() && #[trigger] album_key(files.take(n)[j]) == Some(k);
        assert(files.take(n + 1)[j] == files[j]);
    }
    if album_key(files[n]) == Some(k) {
        assert(files.take(n + 1)[n] == files[n]);
    }
}

proof fn lemma_files_under_members(files: Seq<Seq<char>>, k: Seq<Seq<char>>)
    requires
        files_under(files, k).len() > 0,
    ensures
        some_parent(files, k),
    decreases files.len(),
{
    if album_key(files.last()) == Some(k) {
        assert(album_key(files[files.len() - 1]) == Some(k));
    } else {
        lemma_files_under_members(files.drop_last(), k);
        let j = choose|j: int| 0 <= j < files.drop_last().len() && #[trigger] album_key(files.drop_last()[j]) == Some(k);
        assert(files[j] == files.drop_last()[j]);
    }
}

} // verus!
