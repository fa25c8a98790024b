//! The driver: a display session together with the transport and delay
//! handles that it owns.

use vstd::prelude::*;
use display_interface::DisplayError;
use crate::command::Command;
use crate::error::{relay, Error};
use crate::orientation::Orientation;
use crate::session::{verdict, Addressing, Session};
use crate::transaction::{frame, Transaction};
use crate::window::Window;

verus! {

/// A display session on an RM68120.
///
/// The driver owns the transport `I` and the delay `D`, so that nothing
/// else drives the bus while it lives, but it never calls them. Each
/// operation comes in two halves. The half whose name ends in `_frames`
/// says which transactions the operation puts on the bus, or why it may
/// not begin. The half named for the operation takes the transport's
/// answer to exactly those transactions and moves the session on. Whoever
/// holds the driver sends the transactions in their order through
/// [`Rm68120::interface`], stops at the first fault, and reports the
/// answer.
pub struct Rm68120<I, D> {
    interface: I,
    delay: D,
    width: usize,
    height: usize,
    orientation: Orientation,
    addressing: Addressing,
}

impl<I, D> View for Rm68120<I, D> {
    type V = Session;

    closed spec fn view(&self) -> Session {
        Session {
            width: self.width as nat,
            height: self.height as nat,
            orientation: self.orientation,
            addressing: self.addressing,
        }
    }
}

impl<I, D> Rm68120<I, D> {
    /// The transport and the delay that the driver owns.
    pub closed spec fn handles(&self) -> (I, D) {
        (self.interface, self.delay)
    }

    /// Construct the driver without any side effects: nothing is sent, and
    /// no window is latched.
    pub fn new(interface: I, delay: D, width: usize, height: usize, orientation: Orientation) -> (driver:
        Self)
        ensures
            driver@ == Session::initial(width as nat, height as nat, orientation),
            driver.handles() == (interface, delay),
    {
        Self { interface, delay, width, height, orientation, addressing: Addressing::Stale }
    }

    /// Get the current screen orientation
    pub fn orientation(&self) -> (orientation: Orientation)
        ensures
            orientation == self@.orientation,
    {
        self.orientation
    }

    /// Get the current screen width
    pub fn width(&self) -> (width: usize)
        ensures
            width == self@.width,
    {
        self.width
    }

    /// Get the current screen height
    pub fn height(&self) -> (height: usize)
        ensures
            height == self@.height,
    {
        self.height
    }

    /// The window that the controller has latched, in logical coordinates.
    pub fn window(&self) -> (window: Option<Window>)
        ensures
            window == self@.window(),
    {
        match self.addressing {
            Addressing::Stale => None,
            Addressing::Latched(window) => Some(window),
            Addressing::Streaming(window) => Some(window),
        }
    }

    /// The transport, for sending the transactions of an operation.
    pub fn interface(&mut self) -> (interface: &mut I)
        ensures
            *interface == old(self).handles().0,
            final(self).handles() == (*final(interface), old(self).handles().1),
            final(self)@ == old(self)@,
    {
        &mut self.interface
    }

    /// The delay, for the waits that the controller's timing asks for.
    pub fn delay(&mut self) -> (delay: &mut D)
        ensures
            *delay == old(self).handles().1,
            final(self).handles() == (old(self).handles().0, *final(delay)),
            final(self)@ == old(self)@,
    {
        &mut self.delay
    }

    /// The transactions that switch the display on.
    pub fn enable_frames(&self) -> (plan: Vec<Transaction>)
        ensures
            plan.deep_view() == Session::enable_frames(),
    {
        frame(Command::SetDisplayOn, Vec::new())
    }

    /// Enable the display: takes the transport's answer to
    /// [`Rm68120::enable_frames`]. The session is as it was.
    pub fn enable(&mut self, sent: Result<(), DisplayError>) -> (result: Result<(), Error>)
        ensures
            result == verdict(None, sent),
            final(self)@ == old(self)@,
            final(self).handles() == old(self).handles(),
    {
        relay(sent)
    }

    /// The transactions that switch the display off.
    pub fn disable_frames(&self) -> (plan: Vec<Transaction>)
        ensures
            plan.deep_view() == Session::disable_frames(),
    {
        frame(Command::SetDisplayOff, Vec::new())
    }

    /// Disable the display: takes the transport's answer to
    /// [`Rm68120::disable_frames`]. The session is as it was.
    pub fn disable(&mut self, sent: Result<(), DisplayError>) -> (result: Result<(), Error>)
        ensures
            result == verdict(None, sent),
            final(self)@ == old(self)@,
            final(self).handles() == old(self).handles(),
    {
        relay(sent)
    }

    /// The transactions that turn the panel to `orientation`.
    pub fn orientation_frames(&self, orientation: Orientation) -> (plan: Vec<Transaction>)
        ensures
            plan.deep_view() == Session::orientation_frames(orientation),
    {
        let mut params: Vec<u16> = Vec::new();
        params.push(orientation.address_mode());
        assert(params@ =~= seq![orientation.mode_word() as u16]);
        frame(Command::SetAddressMode, params)
    }

    /// Turns the panel to `orientation`: takes the transport's answer to
    /// [`Rm68120::orientation_frames`].
    ///
    /// Whatever the answer, no window is latched afterwards. On success the
    /// session has the new orientation, with width and height exchanged if
    /// the panel went from portrait to landscape or back; on a fault it
    /// keeps the old orientation and size.
    pub fn set_orientation(&mut self, orientation: Orientation, sent: Result<(), DisplayError>) -> (result:
        Result<(), Error>)
        ensures
            result == verdict(None, sent),
            final(self)@ == old(self)@.reoriented(orientation, sent is Ok),
            final(self).handles() == old(self).handles(),
    {
        self.addressing = Addressing::Stale;
        match sent {
            Ok(()) => {
                if orientation.is_landscape() != self.orientation.is_landscape() {
                    let width: usize = self.width;
                    self.width = self.height;
                    self.height = width;
                }
                self.orientation = orientation;
                Ok(())
            },
            Err(fault) => Err(Error::TransportError(fault)),
        }
    }

    /// The transactions that latch the window of the given logical bounds:
    /// set-column-address with the physical column range, then
    /// set-page-address with the physical page range.
    ///
    /// Succeeds on every window with `col_start <= col_end < width` and
    /// `row_start <= row_end < height`, but for one case: in a flipped
    /// orientation, a window whose mirrored start, `width - 1 - col_start`
    /// or `height - 1 - row_start`, is above `0xFFFF` cannot be addressed.
    /// Everything else fails with `InvalidGeometry`, and so with nothing to
    /// send.
    pub fn window_frames(&self, col_start: u16, col_end: u16, row_start: u16, row_end: u16) -> (plan:
        Result<Vec<Transaction>, Error>)
        ensures
            match plan {
                Ok(frames) => {
                    &&& self@.window_refusal(Window { col_start, col_end, row_start, row_end })
                        is None
                    &&& frames.deep_view() == self@.window_frames(
                        Window { col_start, col_end, row_start, row_end },
                    )
                },
                Err(error) => self@.window_refusal(
                    Window { col_start, col_end, row_start, row_end },
                ) == Some(error),
            },
    {
        let window = Window::new(col_start, col_end, row_start, row_end);
        match window.physical(self.orientation, self.width, self.height) {
            None => Err(Error::InvalidGeometry),
            Some(image) => {
                let mut columns: Vec<u16> = Vec::new();
                columns.push(image.col_start);
                columns.push(image.col_end);
                let mut pages: Vec<u16> = Vec::new();
                pages.push(image.row_start);
                pages.push(image.row_end);
                assert(columns@ =~= seq![image.col_start, image.col_end]);
                assert(pages@ =~= seq![image.row_start, image.row_end]);
                let mut plan = frame(Command::SetColumnAddress, columns);
                let mut rest = frame(Command::SetPageAddress, pages);
                let ghost head = plan.deep_view();
                let ghost tail = rest.deep_view();
                plan.append(&mut rest);
                assert(plan.deep_view() =~= head + tail);
                Ok(plan)
            },
        }
    }

    /// Latches the window of the given logical bounds: takes the
    /// transport's answer to [`Rm68120::window_frames`].
    ///
    /// Bounds that `window_frames` refuses are refused here too, and the
    /// session stays as it was. Otherwise the session holds the window on
    /// success, and none on a fault.
    pub fn set_window(
        &mut self,
        col_start: u16,
        col_end: u16,
        row_start: u16,
        row_end: u16,
        sent: Result<(), DisplayError>,
    ) -> (result: Result<(), Error>)
        ensures
            result == verdict(
                old(self)@.window_refusal(Window { col_start, col_end, row_start, row_end }),
                sent,
            ),
            final(self)@ == old(self)@.windowed(
                Window { col_start, col_end, row_start, row_end },
                sent is Ok,
            ),
            final(self).handles() == old(self).handles(),
    {
        let window = Window::new(col_start, col_end, row_start, row_end);
        if window.physical(self.orientation, self.width, self.height).is_none() {
            return Err(Error::InvalidGeometry);
        }
        match sent {
            Ok(()) => {
                self.addressing = Addressing::Latched(window);
                Ok(())
            },
            Err(fault) => {
                self.addressing = Addressing::Stale;
                Err(Error::TransportError(fault))
            },
        }
    }

    /// The transactions that write `pixels` into the latched window: the
    /// memory-write command, then the pixels as one data transaction.
    ///
    /// The command is memory-write-start for the first write into a window
    /// and memory-write-continue for each further one. The pixels are
    /// neither cut nor padded to the window. Fails with `NoActiveWindow`,
    /// and so with nothing to send, while no window is latched.
    pub fn pixel_frames(&self, pixels: Vec<u16>) -> (plan: Result<Vec<Transaction>, Error>)
        ensures
            match plan {
                Ok(frames) => {
                    &&& self@.pixel_refusal() is None
                    &&& frames.deep_view() == self@.pixel_frames(pixels@)
                },
                Err(error) => self@.pixel_refusal() == Some(error),
            },
    {
        match self.addressing {
            Addressing::Stale => Err(Error::NoActiveWindow),
            Addressing::Latched(_) => Ok(frame(Command::WriteMemoryStart, pixels)),
            Addressing::Streaming(_) => Ok(frame(Command::WriteMemoryContinue, pixels)),
        }
    }

    /// Writes pixels into the latched window: takes the transport's answer
    /// to [`Rm68120::pixel_frames`].
    ///
    /// Without a window the write is refused and the session stays as it
    /// was. Otherwise the window is streaming on success, and lost on a
    /// fault.
    pub fn write_pixels(&mut self, sent: Result<(), DisplayError>) -> (result: Result<(), Error>)
        ensures
            result == verdict(old(self)@.pixel_refusal(), sent),
            final(self)@ == old(self)@.written(sent is Ok),
            final(self).handles() == old(self).handles(),
    {
        match self.addressing {
            Addressing::Stale => Err(Error::NoActiveWindow),
            Addressing::Latched(window) | Addressing::Streaming(window) => match sent {
                Ok(()) => {
                    self.addressing = Addressing::Streaming(window);
                    Ok(())
                },
                Err(fault) => {
                    self.addressing = Addressing::Stale;
                    Err(Error::TransportError(fault))
                },
            },
        }
    }
}

} // verus!
