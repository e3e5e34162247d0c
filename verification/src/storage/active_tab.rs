//! Active library tab preference.

use vstd::prelude::*;

verus! {

/// Active tab in the library view.
#[derive(Debug, Clone, Copy, PartialEq, Eq, Structural)]
pub enum ActiveTab {
    /// Albums tab.
    Albums,
    /// Artists tab.
    Artists,
}

} // verus!
