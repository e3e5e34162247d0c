//! Play/pause overlay: icon, tooltip, and hover visibility.

use vstd::prelude::*;

verus! {

/// Icon of the overlay button: pause while playing, play otherwise.
pub open spec fn play_icon(is_playing: bool) -> Seq<char> {
    if is_playing {
        "media-playback-pause-symbolic"@
    } else {
        "media-playback-start-symbolic"@
    }
}

/// Tooltip of the overlay button.
pub open spec fn play_tooltip(is_playing: bool) -> Seq<char> {
    if is_playing {
        "Pause"@
    } else {
        "Play"@
    }
}

/// The icon name for the playing state.
pub fn icon_name_for(is_playing: bool) -> (s: &'static str)
    ensures
        s@ == play_icon(is_playing),
{
    if is_playing {
        "media-playback-pause-symbolic"
    } else {
        "media-playback-start-symbolic"
    }
}

/// The tooltip for the playing state.
pub fn tooltip_for(is_playing: bool) -> (s: &'static str)
    ensures
        s@ == play_tooltip(is_playing),
{
    if is_playing {
        "Pause"
    } else {
        "Play"
    }
}

/// Builder pattern for configuring play overlays.
#[derive(Debug, Clone, Copy, PartialEq, Eq, Structural)]
pub struct PlayOverlayBuilder {
    /// Whether the overlay should show the pause icon initially.
    pub is_playing: bool,
    /// Whether to show the overlay only on hover.
    pub show_on_hover: bool,
}

impl Default for PlayOverlayBuilder {
    fn default() -> (b: PlayOverlayBuilder)
        ensures
            !b.is_playing,
            !b.show_on_hover,
    {
        PlayOverlayBuilder { is_playing: false, show_on_hover: false }
    }
}

impl PlayOverlayBuilder {
    /// Sets the initial playing state.
    pub fn is_playing(self, is_playing: bool) -> (b: PlayOverlayBuilder)
        ensures
            b.is_playing == is_playing,
            b.show_on_hover == self.show_on_hover,
    {
        PlayOverlayBuilder { is_playing, ..self }
    }

    /// Configures whether to show the overlay only on hover.
    pub fn show_on_hover(self, show_on_hover: bool) -> (b: PlayOverlayBuilder)
        ensures
            b.show_on_hover == show_on_hover,
            b.is_playing == self.is_playing,
    {
        PlayOverlayBuilder { show_on_hover, ..self }
    }

    /// The overlay state the builder configures.
    pub fn build(self) -> (s: PlayOverlayState)
        ensures
            s.is_playing == self.is_playing,
            s.show_on_hover == self.show_on_hover,
    {
        PlayOverlayState::new(self.is_playing, self.show_on_hover)
    }
}

/// State of a play/pause overlay.
#[derive(Debug, Clone, Copy, PartialEq, Eq, Structural)]
pub struct PlayOverlayState {
    /// Current playing state.
    pub is_playing: bool,
    /// Whether the overlay is shown only on hover (and hidden otherwise).
    pub show_on_hover: bool,
}

impl PlayOverlayState {
    /// A new overlay state; an overlay shown on hover starts hidden.
    pub fn new(is_playing: bool, show_on_hover: bool) -> (s: PlayOverlayState)
        ensures
            s.is_playing == is_playing,
            s.show_on_hover == show_on_hover,
    {
        PlayOverlayState { is_playing, show_on_hover }
    }

    /// The default overlay: not playing, shown on hover.
    pub fn default_state() -> (s: PlayOverlayState)
        ensures
            !s.is_playing,
            s.show_on_hover,
    {
        PlayOverlayState::new(false, true)
    }

    /// Updates the playing state; `true` when it changed and the button's
    /// icon and tooltip must follow.
    pub fn set_playing(&mut self, is_playing: bool) -> (changed: bool)
        ensures
            final(self).is_playing == is_playing,
            final(self).show_on_hover == old(self).show_on_hover,
            changed == (old(self).is_playing != is_playing),
    {
        if self.is_playing != is_playing {
            self.is_playing = is_playing;
            true
        } else {
            false
        }
    }

    /// The visibility a hover change gives the button: only an overlay shown
    /// on hover follows the pointer.
    pub fn hover_visibility(&self, visible: bool) -> (r: Option<bool>)
        ensures
            self.show_on_hover ==> r == Some(visible),
            !self.show_on_hover ==> r.is_none(),
    {
        if self.show_on_hover {
            Some(visible)
        } else {
            None
        }
    }

    /// Gets the current playing state.
    pub fn is_playing(&self) -> (r: bool)
        ensures
            r == self.is_playing,
    {
        self.is_playing
    }
}

} // verus!
