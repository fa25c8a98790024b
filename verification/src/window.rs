//! Address windows and their image in the controller's frame memory.

use vstd::prelude::*;
use crate::orientation::Orientation;

verus! {

/// The largest address that a 16-bit parameter carries.
pub const ADDRESS_MAX: usize = 0xFFFF;

/// A rectangle of pixels, by its first and last column and its first and
/// last row, all inclusive.
#[derive(Debug, Clone, Copy, PartialEq, Eq, Structural)]
pub struct Window {
    pub col_start: u16,
    pub col_end: u16,
    pub row_start: u16,
    pub row_end: u16,
}

/// Where the logical range `start..=end` of an axis of `extent` pixels lies
/// on the physical axis: in place when the axis is traversed in increasing
/// order, mirrored when it is traversed in decreasing order.
pub open spec fn directed(start: int, end: int, extent: int, flipped: bool) -> (int, int) {
    if flipped {
        (extent - 1 - end, extent - 1 - start)
    } else {
        (start, end)
    }
}

impl Window {
    /// Neither range is inverted.
    pub open spec fn ordered(&self) -> bool {
        self.col_start <= self.col_end && self.row_start <= self.row_end
    }

    /// The window is ordered and lies on a panel of `width` by `height`
    /// pixels.
    pub open spec fn within(&self, width: nat, height: nat) -> bool {
        self.ordered() && self.col_end < width && self.row_end < height
    }

    /// The image of this window can be written as 16-bit addresses: the
    /// ends of its column and page ranges, the largest of its four bounds,
    /// fit.
    pub open spec fn encodable(&self, orientation: Orientation, width: nat, height: nat) -> bool {
        self.columns(orientation, width, height).1 <= ADDRESS_MAX && self.pages(
            orientation,
            width,
            height,
        ).1 <= ADDRESS_MAX
    }

    /// A session of `width` by `height` logical pixels in `orientation`
    /// accepts this window: it lies on the panel, and its image can be
    /// written.
    pub open spec fn admitted(&self, orientation: Orientation, width: nat, height: nat) -> bool {
        self.within(width, height) && self.encodable(orientation, width, height)
    }

    /// The number of pixel words that fill the window exactly once; an
    /// inverted window holds none.
    pub open spec fn area(&self) -> nat {
        if self.ordered() {
            ((self.col_end - self.col_start + 1) * (self.row_end - self.row_start + 1)) as nat
        } else {
            0
        }
    }

    /// The physical column range of this logical window.
    pub open spec fn columns(&self, orientation: Orientation, width: nat, height: nat) -> (
        int,
        int,
    ) {
        if orientation.landscape() {
            directed(
                self.row_start as int,
                self.row_end as int,
                height as int,
                orientation.flipped(),
            )
        } else {
            directed(
                self.col_start as int,
                self.col_end as int,
                width as int,
                orientation.flipped(),
            )
        }
    }

    /// The physical page range of this logical window.
    pub open spec fn pages(&self, orientation: Orientation, width: nat, height: nat) -> (
        int,
        int,
    ) {
        if orientation.landscape() {
            directed(
                self.col_start as int,
                self.col_end as int,
                width as int,
                orientation.flipped(),
            )
        } else {
            directed(
                self.row_start as int,
                self.row_end as int,
                height as int,
                orientation.flipped(),
            )
        }
    }

    /// The controller-side window that this logical window addresses on a
    /// panel of `width` by `height` logical pixels: its columns are the
    /// physical columns, its rows the physical pages.
    pub open spec fn image(&self, orientation: Orientation, width: nat, height: nat) -> Window {
        let columns = self.columns(orientation, width, height);
        let pages = self.pages(orientation, width, height);
        Window {
            col_start: columns.0 as u16,
            col_end: columns.1 as u16,
            row_start: pages.0 as u16,
            row_end: pages.1 as u16,
        }
    }

    /// A window from its four bounds.
    pub fn new(col_start: u16, col_end: u16, row_start: u16, row_end: u16) -> (window: Window)
        ensures
            window == (Window { col_start, col_end, row_start, row_end }),
    {
        Window { col_start, col_end, row_start, row_end }
    }

    /// The number of pixel words that fill the window exactly once.
    pub fn pixels(&self) -> (count: u64)
        ensures
            count == self.area(),
    {
        if self.col_start <= self.col_end && self.row_start <= self.row_end {
            let columns: u64 = (self.col_end - self.col_start) as u64 + 1;
            let rows: u64 = (self.row_end - self.row_start) as u64 + 1;
            assert(columns * rows <= 0x1_0000 * 0x1_0000) by (nonlinear_arith)
                requires
                    columns <= 0x1_0000,
                    rows <= 0x1_0000,
            ;
            columns * rows
        } else {
            0
        }
    }

    /// Maps this logical window to the controller's column and page ranges.
    ///
    /// Gives the controller-side window when a session of this geometry
    /// admits the logical one, and nothing otherwise: where a range is
    /// inverted or reaches beyond the panel, or where a mirrored bound
    /// does not fit 16 bits.
    pub fn physical(&self, orientation: Orientation, width: usize, height: usize) -> (mapped:
        Option<Window>)
        ensures
            mapped == if self.admitted(orientation, width as nat, height as nat) {
                Some(self.image(orientation, width as nat, height as nat))
            } else {
                None::<Window>
            },
    {
        if self.col_start > self.col_end || self.row_start > self.row_end {
            return None;
        }
        if self.col_end as usize >= width || self.row_end as usize >= height {
            return None;
        }
        let flipped: bool = orientation.is_flipped();
        let horizontal = place(self.col_start, self.col_end, width, flipped);
        let vertical = place(self.row_start, self.row_end, height, flipped);
        match (horizontal, vertical) {
            (Some(horizontal), Some(vertical)) => {
                if orientation.is_landscape() {
                    Some(
                        Window {
                            col_start: vertical.0,
                            col_end: vertical.1,
                            row_start: horizontal.0,
                            row_end: horizontal.1,
                        },
                    )
                } else {
                    Some(
                        Window {
                            col_start: horizontal.0,
                            col_end: horizontal.1,
                            row_start: vertical.0,
                            row_end: vertical.1,
                        },
                    )
                }
            },
            _ => None,
        }
    }
}

/// Places a logical range on its physical axis, where the placed range
/// fits 16 bits.
fn place(start: u16, end: u16, extent: usize, flipped: bool) -> (range: Option<(u16, u16)>)
    requires
        start <= end < extent,
    ensures
        match range {
            Some(placed) => (placed.0 as int, placed.1 as int) == directed(
                start as int,
                end as int,
                extent as int,
                flipped,
            ),
            None => directed(start as int, end as int, extent as int, flipped).1 > ADDRESS_MAX,
        },
{
    if flipped {
        let last: usize = extent - 1;
        let placed_end: usize = last - start as usize;
        if placed_end > ADDRESS_MAX {
            None
        } else {
            Some(((last - end as usize) as u16, placed_end as u16))
        }
    } else {
        Some((start, end))
    }
}

/// Which windows are admitted. A window must be ordered and lie on the
/// panel. In the orientations that are not flipped that is enough. In the
/// flipped ones its mirrored starts, the largest addresses of its image,
/// must fit 16 bits as well.
pub proof fn admission_by_orientation(
    window: Window,
    orientation: Orientation,
    width: nat,
    height: nat,
)
    ensures
        window.admitted(orientation, width, height) <==> {
            &&& window.col_start <= window.col_end < width
            &&& window.row_start <= window.row_end < height
            &&& orientation.flipped() ==> {
                &&& width - 1 - window.col_start <= ADDRESS_MAX
                &&& height - 1 - window.row_start <= ADDRESS_MAX
            }
        },
{
}

/// On a panel of at most 65536 by 65536 pixels every ordered window on the
/// panel is admitted, whichever way the panel is turned.
pub proof fn small_panel_admits_all(
    window: Window,
    orientation: Orientation,
    width: nat,
    height: nat,
)
    requires
        width <= ADDRESS_MAX + 1,
        height <= ADDRESS_MAX + 1,
        window.within(width, height),
    ensures
        window.admitted(orientation, width, height),
{
}

/// The image of an admitted window is an ordered window on the physical
/// panel, whose columns span the logical height in landscape and the
/// logical width in portrait, and it holds as many pixels as the logical
/// window.
pub proof fn image_lies_on_panel(window: Window, orientation: Orientation, width: nat, height: nat)
    requires
        window.admitted(orientation, width, height),
    ensures
        window.image(orientation, width, height).ordered(),
        orientation.landscape() ==> window.image(orientation, width, height).within(height, width),
        orientation.portrait() ==> window.image(orientation, width, height).within(width, height),
        window.image(orientation, width, height).area() == window.area(),
{
    let image = window.image(orientation, width, height);
    let columns = window.columns(orientation, width, height);
    let pages = window.pages(orientation, width, height);
    assert(image.col_start == columns.0 && image.col_end == columns.1);
    assert(image.row_start == pages.0 && image.row_end == pages.1);
    let a: int = window.col_end - window.col_start + 1;
    let b: int = window.row_end - window.row_start + 1;
    assert(a * b == b * a) by (nonlinear_arith);
}

/// Two admitted windows with the same image are the same window.
pub proof fn image_injective(
    a: Window,
    b: Window,
    orientation: Orientation,
    width: nat,
    height: nat,
)
    requires
        a.admitted(orientation, width, height),
        b.admitted(orientation, width, height),
        a.image(orientation, width, height) == b.image(orientation, width, height),
    ensures
        a == b,
{
    let ia = a.image(orientation, width, height);
    let ib = b.image(orientation, width, height);
    assert(ia.col_start == a.columns(orientation, width, height).0);
    assert(ia.col_end == a.columns(orientation, width, height).1);
    assert(ia.row_start == a.pages(orientation, width, height).0);
    assert(ia.row_end == a.pages(orientation, width, height).1);
    assert(ib.col_start == b.columns(orientation, width, height).0);
    assert(ib.col_end == b.columns(orientation, width, height).1);
    assert(ib.row_start == b.pages(orientation, width, height).0);
    assert(ib.row_end == b.pages(orientation, width, height).1);
}

/// In the panel's native position a window is its own image.
pub proof fn image_in_portrait(window: Window, width: nat, height: nat)
    ensures
        window.image(Orientation::Portrait, width, height) == window,
{
}

} // verus!
