//! Page navigation of the library window: detail pages, the back action,
//! tab switches and the Escape key.

use vstd::prelude::*;

use crate::storage::view_mode::ViewMode;
use crate::text::{copy_string, same_text};

verus! {

/// Page name of the albums grid.
pub const VIEW_STACK_ALBUMS: &'static str = "albums";

/// Page name of the artists grid.
pub const VIEW_STACK_ARTISTS: &'static str = "artists";

/// Page name of an album's detail view.
pub const VIEW_STACK_ALBUM_DETAIL: &'static str = "album_detail";

/// Page name of an artist's detail view.
pub const VIEW_STACK_ARTIST_DETAIL: &'static str = "artist_detail";

/// Header state with the main navigation buttons.
pub const VIEW_STACK_MAIN_HEADER: &'static str = "main";

/// Header state with the back button.
pub const VIEW_STACK_BACK_HEADER: &'static str = "back";

/// Whether a page is one of the two main grids.
pub open spec fn is_main_grid(page: Seq<char>) -> bool {
    page == "albums"@ || page == "artists"@
}

/// Whether a page is a detail view.
pub open spec fn is_detail(page: Seq<char>) -> bool {
    page == "album_detail"@ || page == "artist_detail"@
}

/// Navigation state of the library window.
#[derive(Debug, Clone)]
pub struct NavState {
    /// The page the main stack shows.
    pub visible_page: String,
    /// Pages to return to, most recent last.
    pub history: Vec<String>,
    /// The main tab last chosen (`albums` or `artists`).
    pub last_tab: String,
    /// Whether the header shows the back button (else the main buttons).
    pub back_header: bool,
    /// Whether the header's right-hand buttons are visible.
    pub right_buttons: bool,
}

/// The navigation state as plain values.
pub struct NavView {
    /// The page shown.
    pub visible_page: Seq<char>,
    /// Pages to return to, most recent last.
    pub history: Seq<Seq<char>>,
    /// The main tab last chosen.
    pub last_tab: Seq<char>,
    /// Whether the header shows the back button.
    pub back_header: bool,
    /// Whether the right-hand buttons are visible.
    pub right_buttons: bool,
}

impl NavState {
    /// The state as plain values.
    pub open spec fn view(&self) -> NavView {
        NavView {
            visible_page: self.visible_page@,
            history: crate::text::views(self.history@),
            last_tab: self.last_tab@,
            back_header: self.back_header,
            right_buttons: self.right_buttons,
        }
    }
}

/// After opening a detail page: the current page is remembered, the header
/// offers the back button and hides the right-hand buttons.
pub open spec fn after_open(s: NavView, page: Seq<char>) -> NavView {
    NavView {
        visible_page: page,
        history: s.history.push(s.visible_page),
        back_header: true,
        right_buttons: false,
        ..s
    }
}

/// The main-grid header: main buttons and right-hand buttons shown.
pub open spec fn main_header(s: NavView) -> NavView {
    NavView { back_header: false, right_buttons: true, ..s }
}

/// After going back: the most recent remembered page, or the last tab when
/// nothing is remembered; reaching a main grid restores the main header.
pub open spec fn after_back(s: NavView) -> NavView {
    if s.history.len() > 0 {
        let prev = s.history.last();
        let t = NavView { visible_page: prev, history: s.history.drop_last(), ..s };
        if is_main_grid(prev) {
            main_header(t)
        } else {
            t
        }
    } else {
        main_header(NavView { visible_page: s.last_tab, ..s })
    }
}

/// After choosing a main tab: nothing when it already shows; otherwise the
/// tab shows with the main header, and history is dropped when leaving a
/// detail page.
pub open spec fn after_tab(s: NavView, tab: Seq<char>) -> NavView {
    if s.visible_page == tab {
        s
    } else {
        main_header(
            NavView {
                visible_page: tab,
                last_tab: tab,
                history: if is_detail(s.visible_page) {
                    Seq::empty()
                } else {
                    s.history
                },
                ..s
            },
        )
    }
}

impl NavState {
    /// The window at start: the given tab shown with the main header.
    pub fn new(tab: &str) -> (s: NavState)
        ensures
            s.view() == (NavView {
                visible_page: tab@,
                history: Seq::empty(),
                last_tab: tab@,
                back_header: false,
                right_buttons: true,
            }),
    {
        let s = NavState {
            visible_page: String::from_str(tab),
            history: Vec::new(),
            last_tab: String::from_str(tab),
            back_header: false,
            right_buttons: true,
        };
        assert(s.view().history =~= Seq::<Seq<char>>::empty());
        s
    }

    /// Open a detail page, remembering the current page for the back action.
    pub fn open_detail(&mut self, page: &str)
        ensures
            final(self).view() == after_open(old(self).view(), page@),
    {
        let current = copy_string(&self.visible_page);
        let ghost before = self.history@;
        self.history.push(current);
        proof {
            crate::text::lemma_views_push(before, self.history@.last());
            assert(self.history@ =~= before.push(self.history@.last()));
        }
        self.visible_page = String::from_str(page);
        self.back_header = true;
        self.right_buttons = false;
    }

    /// Go back; `true` when a main grid was reached and the library lists
    /// must be refreshed with the current sort settings.
    pub fn back(&mut self) -> (refresh: bool)
        ensures
            final(self).view() == after_back(old(self).view()),
            refresh == (old(self).history@.len() == 0 || is_main_grid(
                old(self).view().history.last(),
            )),
    {
        let ghost before = self.history@;
        match self.history.pop() {
            Some(prev) => {
                proof {
                    assert(before =~= self.history@.push(prev));
                    assert(crate::text::views(self.history@) =~= crate::text::views(before).drop_last());
                }
                let main = same_text(prev.as_str(), "albums") || same_text(prev.as_str(), "artists");
                self.visible_page = prev;
                if main {
                    self.back_header = false;
                    self.right_buttons = true;
                }
                proof {
                    reveal_strlit("albums");
                    reveal_strlit("artists");
                }
                main
            },
            None => {
                self.visible_page = copy_string(&self.last_tab);
                self.back_header = false;
                self.right_buttons = true;
                true
            },
        }
    }

    /// Choose a main tab (`albums` or `artists`); `false` when it already
    /// shows and nothing happens.
    pub fn choose_tab(&mut self, tab: &str) -> (changed: bool)
        ensures
            final(self).view() == after_tab(old(self).view(), tab@),
            changed == (old(self).visible_page@ != tab@),
    {
        if same_text(self.visible_page.as_str(), tab) {
            return false;
        }
        proof {
            reveal_strlit("album_detail");
            reveal_strlit("artist_detail");
        }
        if same_text(self.visible_page.as_str(), "album_detail") || same_text(
            self.visible_page.as_str(),
            "artist_detail",
        ) {
            self.history = Vec::new();
            assert(crate::text::views(self.history@) =~= Seq::<Seq<char>>::empty());
        }
        self.last_tab = String::from_str(tab);
        self.visible_page = String::from_str(tab);
        self.back_header = false;
        self.right_buttons = true;
        true
    }
}

/// Going back from a detail page returns to the page it was opened from,
/// with the remembered pages as they were; from a main grid the main header
/// is restored too.
pub proof fn back_returns_to_opener(s: NavView, page: Seq<char>)
    ensures
        after_back(after_open(s, page)).visible_page == s.visible_page,
        after_back(after_open(s, page)).history == s.history,
        after_back(after_open(s, page)).last_tab == s.last_tab,
        is_main_grid(s.visible_page) ==> !after_back(after_open(s, page)).back_header
            && after_back(after_open(s, page)).right_buttons,
{
    assert(s.history.push(s.visible_page).drop_last() =~= s.history);
}

/// Going back with nothing remembered always lands on the last tab with the
/// main header.
pub proof fn back_without_history_lands_on_last_tab(s: NavView)
    requires
        s.history.len() == 0,
    ensures
        after_back(s).visible_page == s.last_tab,
        !after_back(s).back_header,
        after_back(s).right_buttons,
{
}

/// What the Escape key does in the library window.
#[derive(Debug, Clone, Copy, PartialEq, Eq, Structural)]
pub enum EscAction {
    /// Close the open search bar and clear its text.
    CloseSearch,
    /// Go back.
    Back,
    /// Nothing: a main grid shows.
    Nothing,
}

/// Escape closes an open search; otherwise it goes back unless a main grid
/// shows (an unknown page goes back too).
pub fn handle_esc_navigation(search_visible: bool, page: Option<&str>) -> (a: EscAction)
    ensures
        search_visible ==> a == EscAction::CloseSearch,
        !search_visible ==> match page {
            Some(p) => if is_main_grid(p@) {
                a == EscAction::Nothing
            } else {
                a == EscAction::Back
            },
            None => a == EscAction::Back,
        },
{
    proof {
        reveal_strlit("albums");
        reveal_strlit("artists");
    }
    if search_visible {
        EscAction::CloseSearch
    } else {
        match page {
            Some(p) => if same_text(p, "albums") || same_text(p, "artists") {
                EscAction::Nothing
            } else {
                EscAction::Back
            },
            None => EscAction::Back,
        }
    }
}

/// A zoom shortcut of the library window.
#[derive(Debug, Clone, Copy, PartialEq, Eq, Structural)]
pub enum ZoomKey {
    /// Ctrl and plus.
    CtrlPlus,
    /// Ctrl and minus.
    CtrlMinus,
    /// Ctrl and 0.
    CtrlZero,
}

/// The zoom control that a shortcut acts on.
#[derive(Debug, Clone, Copy, PartialEq, Eq, Structural)]
pub enum ZoomTarget {
    /// The grid view's zoom manager.
    GridZoom,
    /// The column view's zoom manager.
    ColumnZoom,
}

/// What a zoom shortcut asks of its zoom control.
#[derive(Debug, Clone, Copy, PartialEq, Eq, Structural)]
pub enum ZoomOp {
    /// Zoom in one step.
    ZoomIn,
    /// Zoom out one step.
    ZoomOut,
    /// Back to the default zoom level.
    ResetZoom,
}

/// The operation a zoom shortcut stands for.
pub open spec fn zoom_op_of(key: ZoomKey) -> ZoomOp {
    match key {
        ZoomKey::CtrlPlus => ZoomOp::ZoomIn,
        ZoomKey::CtrlMinus => ZoomOp::ZoomOut,
        ZoomKey::CtrlZero => ZoomOp::ResetZoom,
    }
}

/// Zoom shortcuts act only on the zoom control of the current view mode:
/// the grid's zoom manager in grid mode, the column view's in column mode,
/// and nothing in column mode when the column view has no zoom manager.
/// Either way the shortcut is handled and stops there.
pub fn zoom_target(key: ZoomKey, mode: ViewMode, has_column_manager: bool) -> (t: Option<(ZoomTarget, ZoomOp)>)
    ensures
        mode == ViewMode::Grid ==> t == Some((ZoomTarget::GridZoom, zoom_op_of(key))),
        mode == ViewMode::Column ==> t == (if has_column_manager {
            Some((ZoomTarget::ColumnZoom, zoom_op_of(key)))
        } else {
            None
        }),
{
    let op = match key {
        ZoomKey::CtrlPlus => ZoomOp::ZoomIn,
        ZoomKey::CtrlMinus => ZoomOp::ZoomOut,
        ZoomKey::CtrlZero => ZoomOp::ResetZoom,
    };
    match mode {
        ViewMode::Grid => Some((ZoomTarget::GridZoom, op)),
        ViewMode::Column => if has_column_manager {
            Some((ZoomTarget::ColumnZoom, op))
        } else {
            None
        },
    }
}

} // verus!
