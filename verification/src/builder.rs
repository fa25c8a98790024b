//! Step-by-step configuration of a driver.

use vstd::prelude::*;
use crate::driver::Rm68120;
use crate::orientation::Orientation;
use crate::session::Session;

verus! {

/// The width that a builder starts with.
pub const DEFAULT_WIDTH: usize = 800;

/// The height that a builder starts with.
pub const DEFAULT_HEIGHT: usize = 480;

/// Collects the size and the orientation that a driver starts with.
pub struct Rm68120Builder {
    width: usize,
    height: usize,
    orientation: Orientation,
}

impl View for Rm68120Builder {
    type V = Session;

    /// The session that a driver built now would start in.
    closed spec fn view(&self) -> Session {
        Session::initial(self.width as nat, self.height as nat, self.orientation)
    }
}

impl Rm68120Builder {
    /// Construct a new driver builder: 800 by 480 pixels, landscape.
    pub fn new() -> (builder: Self)
        ensures
            builder@ == Session::initial(
                DEFAULT_WIDTH as nat,
                DEFAULT_HEIGHT as nat,
                Orientation::Landscape,
            ),
    {
        Self { width: DEFAULT_WIDTH, height: DEFAULT_HEIGHT, orientation: Orientation::Landscape }
    }

    /// Set the initial width and height of the display
    pub fn with_dimensions(&mut self, width: usize, height: usize) -> (builder: &mut Self)
        ensures
            builder@ == Session::initial(width as nat, height as nat, old(self)@.orientation),
            *final(self) == *final(builder),
    {
        self.width = width;
        self.height = height;

        self
    }

    /// Set the initial orientation of the display
    pub fn with_orientation(&mut self, orientation: Orientation) -> (builder: &mut Self)
        ensures
            builder@ == Session::initial(old(self)@.width, old(self)@.height, orientation),
            *final(self) == *final(builder),
    {
        self.orientation = orientation;

        self
    }

    /// Construct the driver using the provided interface
    pub fn build<I, D>(&self, interface: I, delay: D) -> (driver: Rm68120<I, D>)
        ensures
            driver@ == self@,
            driver.handles() == (interface, delay),
    {
        Rm68120::new(interface, delay, self.width, self.height, self.orientation)
    }
}

} // verus!
