//! Panel orientation and the address-mode word that selects it.

use vstd::prelude::*;

verus! {

/// Address-mode flag: pages are traversed in decreasing physical order.
pub const ROW_ORDER: u16 = 0x0080;

/// Address-mode flag: columns are traversed in decreasing physical order.
pub const COLUMN_ORDER: u16 = 0x0040;

/// Address-mode flag: the logical horizontal axis runs along the physical
/// page axis, the logical vertical axis along the physical column axis.
pub const EXCHANGE: u16 = 0x0020;

/// How the logical image lies on the panel.
///
/// The panel's native position is `Portrait`: logical columns are physical
/// columns and logical rows are physical pages, both traversed in
/// increasing order. The landscape variants exchange the two axes; the
/// flipped variants traverse both axes in decreasing order.
#[derive(Debug, Clone, Copy, PartialEq, Eq, Structural)]
pub enum Orientation {
    Landscape,
    LandscapeFlipped,
    Portrait,
    PortraitFlipped,
}

impl Orientation {
    /// The logical axes are exchanged against the physical ones.
    pub open spec fn landscape(&self) -> bool {
        *self == Orientation::Landscape || *self == Orientation::LandscapeFlipped
    }

    /// The logical axes coincide with the physical ones.
    pub open spec fn portrait(&self) -> bool {
        *self == Orientation::Portrait || *self == Orientation::PortraitFlipped
    }

    /// Both axes are traversed in decreasing physical order.
    pub open spec fn flipped(&self) -> bool {
        *self == Orientation::LandscapeFlipped || *self == Orientation::PortraitFlipped
    }

    /// The parameter word of the address-mode command for this orientation:
    /// the sum of the flags that apply.
    pub open spec fn mode_word(&self) -> int {
        (if self.landscape() { EXCHANGE as int } else { 0 })
            + (if self.flipped() { ROW_ORDER + COLUMN_ORDER } else { 0 })
    }

    #[verifier::when_used_as_spec(landscape)]
    pub fn is_landscape(&self) -> (r: bool)
        ensures
            r == self.landscape(),
    {
        match self {
            Orientation::Landscape | Orientation::LandscapeFlipped => true,
            _ => false,
        }
    }

    #[verifier::when_used_as_spec(portrait)]
    pub fn is_portrait(&self) -> (r: bool)
        ensures
            r == self.portrait(),
    {
        match self {
            Orientation::Portrait | Orientation::PortraitFlipped => true,
            _ => false,
        }
    }

    #[verifier::when_used_as_spec(flipped)]
    pub fn is_flipped(&self) -> (r: bool)
        ensures
            r == self.flipped(),
    {
        match self {
            Orientation::LandscapeFlipped | Orientation::PortraitFlipped => true,
            _ => false,
        }
    }

    /// The parameter word that the address-mode command carries to put the
    /// controller into this orientation.
    pub fn address_mode(&self) -> (word: u16)
        ensures
            word == self.mode_word(),
    {
        match self {
            Orientation::Portrait => 0x0000,
            Orientation::PortraitFlipped => 0x00C0,
            Orientation::Landscape => 0x0020,
            Orientation::LandscapeFlipped => 0x00E0,
        }
    }
}

/// Landscape and portrait partition the orientations: every orientation is
/// exactly one of the two.
pub proof fn landscape_portrait_partition(orientation: Orientation)
    ensures
        orientation.is_landscape() || orientation.is_portrait(),
        !(orientation.is_landscape() && orientation.is_portrait()),
{
}

/// Distinct orientations are selected by distinct address-mode words.
pub proof fn mode_word_injective(a: Orientation, b: Orientation)
    requires
        a.mode_word() == b.mode_word(),
    ensures
        a == b,
{
}

} // verus!
