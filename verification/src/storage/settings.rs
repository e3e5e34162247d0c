//! Preference types stored with the user settings.

pub use crate::storage::active_tab::ActiveTab;
pub use crate::storage::view_mode::ViewMode;
