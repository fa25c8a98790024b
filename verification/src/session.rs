//! The display session as a mathematical state machine: what each
//! operation puts on the bus, and what the session holds afterwards.

use vstd::prelude::*;
use display_interface::DisplayError;
use crate::command::Command;
use crate::error::{relayed, Error};
use crate::orientation::Orientation;
use crate::transaction::{framed, Frame};
use crate::window::{Window, ADDRESS_MAX};

verus! {

/// What the session knows of the controller's address window.
#[derive(Debug, Clone, Copy, PartialEq, Eq, Structural)]
pub enum Addressing {
    /// No window can be relied on: none was set, or the last one was lost
    /// to a change of orientation or to a failed transfer.
    Stale,
    /// The controller has latched this window and nothing was written to
    /// it yet.
    Latched(Window),
    /// The controller has latched this window and a memory write has begun
    /// in it.
    Streaming(Window),
}

impl Addressing {
    /// The latched window, in logical coordinates.
    pub open spec fn window(&self) -> Option<Window> {
        match self {
            Addressing::Stale => None,
            Addressing::Latched(window) => Some(*window),
            Addressing::Streaming(window) => Some(*window),
        }
    }
}

/// The state of a display session.
pub struct Session {
    /// Logical width, in the current orientation.
    pub width: nat,
    /// Logical height, in the current orientation.
    pub height: nat,
    pub orientation: Orientation,
    pub addressing: Addressing,
}

impl Session {
    /// A session as it is constructed: nothing was sent, so no window is
    /// latched.
    pub open spec fn initial(width: nat, height: nat, orientation: Orientation) -> Session {
        Session { width, height, orientation, addressing: Addressing::Stale }
    }

    /// The latched window, where there is one.
    pub open spec fn window(&self) -> Option<Window> {
        self.addressing.window()
    }

    /// The session accepts `window` as an address window.
    pub open spec fn admits(&self, window: Window) -> bool {
        window.admitted(self.orientation, self.width, self.height)
    }

    /// A window that the session relies on is one that it accepts.
    pub open spec fn consistent(&self) -> bool {
        self.window() matches Some(window) ==> self.admits(window)
    }

    /// The command that begins the next memory write: the first write into
    /// a window starts it, every further one continues it.
    pub open spec fn write_command(&self) -> Command {
        if self.addressing is Streaming {
            Command::WriteMemoryContinue
        } else {
            Command::WriteMemoryStart
        }
    }

    /// Why latching `window` is refused before anything is sent, if it is.
    pub open spec fn window_refusal(&self, window: Window) -> Option<Error> {
        if self.admits(window) {
            None
        } else {
            Some(Error::InvalidGeometry)
        }
    }

    /// Why writing pixels is refused before anything is sent, if it is.
    pub open spec fn pixel_refusal(&self) -> Option<Error> {
        if self.window() is None {
            Some(Error::NoActiveWindow)
        } else {
            None
        }
    }

    /// What switching the display on puts on the bus.
    pub open spec fn enable_frames() -> Seq<Frame> {
        framed(Command::SetDisplayOn.code(), Seq::empty())
    }

    /// What switching the display off puts on the bus.
    pub open spec fn disable_frames() -> Seq<Frame> {
        framed(Command::SetDisplayOff.code(), Seq::empty())
    }

    /// What turning the panel to `orientation` puts on the bus: the
    /// address-mode command with the orientation's mode word.
    pub open spec fn orientation_frames(orientation: Orientation) -> Seq<Frame> {
        framed(Command::SetAddressMode.code(), seq![orientation.mode_word() as u16])
    }

    /// What latching `window` puts on the bus: the column range of its
    /// image, then the page range, each as start and end.
    pub open spec fn window_frames(&self, window: Window) -> Seq<Frame> {
        let image = window.image(self.orientation, self.width, self.height);
        framed(Command::SetColumnAddress.code(), seq![image.col_start, image.col_end]) + framed(
            Command::SetPageAddress.code(),
            seq![image.row_start, image.row_end],
        )
    }

    /// What writing `pixels` puts on the bus: the memory-write command that
    /// is due, then the pixels as data.
    pub open spec fn pixel_frames(&self, pixels: Seq<u16>) -> Seq<Frame> {
        framed(self.write_command().code(), pixels)
    }

    /// The session after an attempt to turn the panel to `orientation`.
    ///
    /// The window is lost either way. Where the transfer went through, the
    /// session takes the new orientation, and width and height change
    /// places if the panel went from portrait to landscape or back.
    pub open spec fn reoriented(&self, orientation: Orientation, sent: bool) -> Session {
        if !sent {
            Session { addressing: Addressing::Stale, ..*self }
        } else if orientation.landscape() != self.orientation.landscape() {
            Session {
                width: self.height,
                height: self.width,
                orientation,
                addressing: Addressing::Stale,
            }
        } else {
            Session { orientation, addressing: Addressing::Stale, ..*self }
        }
    }

    /// The session after an attempt to latch `window`.
    ///
    /// A window that is not accepted changes nothing, for nothing is sent.
    /// An accepted one is latched where the transfer went through; where it
    /// failed, the controller's window is in doubt and the session relies
    /// on none.
    pub open spec fn windowed(&self, window: Window, sent: bool) -> Session {
        if !self.admits(window) {
            *self
        } else if sent {
            Session { addressing: Addressing::Latched(window), ..*self }
        } else {
            Session { addressing: Addressing::Stale, ..*self }
        }
    }

    /// The session after an attempt to write pixels.
    ///
    /// Without a window nothing is sent and nothing changes. With one, a
    /// write that went through leaves the window streaming; a failed one
    /// leaves the session without a window.
    pub open spec fn written(&self, sent: bool) -> Session {
        match self.addressing.window() {
            None => *self,
            Some(window) => if sent {
                Session { addressing: Addressing::Streaming(window), ..*self }
            } else {
                Session { addressing: Addressing::Stale, ..*self }
            },
        }
    }
}

/// What an operation reports: its refusal where it was refused, and the
/// transport's answer otherwise.
pub open spec fn verdict(refusal: Option<Error>, sent: Result<(), DisplayError>) -> Result<
    (),
    Error,
> {
    match refusal {
        Some(error) => Err(error),
        None => relayed(sent),
    }
}

/// A fresh session is consistent, and every operation keeps a consistent
/// session consistent, however the transfer went.
pub proof fn consistency_is_kept(
    session: Session,
    orientation: Orientation,
    window: Window,
    sent: bool,
)
    requires
        session.consistent(),
    ensures
        Session::initial(session.width, session.height, orientation).consistent(),
        session.reoriented(orientation, sent).consistent(),
        session.windowed(window, sent).consistent(),
        session.written(sent).consistent(),
{
}

/// Latching succeeds on every window that is ordered and lies on the
/// panel: the session then holds exactly that window, and a write is not
/// refused. In the flipped orientations this holds of the windows whose
/// mirrored starts fit 16 bits, which on a panel of at most 65536 by 65536
/// pixels are all of them.
pub proof fn valid_window_is_latched(session: Session, window: Window)
    requires
        window.col_start <= window.col_end < session.width,
        window.row_start <= window.row_end < session.height,
        session.orientation.flipped() ==> {
            &&& session.width - 1 - window.col_start <= ADDRESS_MAX
            &&& session.height - 1 - window.row_start <= ADDRESS_MAX
        },
    ensures
        session.window_refusal(window) is None,
        session.windowed(window, true).window() == Some(window),
        session.windowed(window, true).addressing == Addressing::Latched(window),
        session.windowed(window, true).pixel_refusal() is None,
{
}

/// Latching is refused for the window's geometry alone, and only where the
/// window cannot be addressed: where a range is inverted or reaches beyond
/// the panel, or where the panel is flipped and a mirrored start does not
/// fit 16 bits.
pub proof fn window_is_refused_only_for_geometry(session: Session, window: Window)
    ensures
        session.window_refusal(window) is None || session.window_refusal(window) == Some(
            Error::InvalidGeometry,
        ),
        session.window_refusal(window) is Some <==> {
            ||| window.col_start > window.col_end
            ||| window.row_start > window.row_end
            ||| window.col_end >= session.width
            ||| window.row_end >= session.height
            ||| session.orientation.flipped() && session.width - 1 - window.col_start
                > ADDRESS_MAX
            ||| session.orientation.flipped() && session.height - 1 - window.row_start
                > ADDRESS_MAX
        },
{
}

/// A window with an inverted range, or one that reaches beyond the panel,
/// is not accepted, and the attempt leaves the session as it was.
pub proof fn invalid_window_is_refused(session: Session, window: Window, sent: bool)
    requires
        window.col_start > window.col_end || window.row_start > window.row_end
            || window.col_end >= session.width || window.row_end >= session.height,
    ensures
        session.window_refusal(window) == Some(Error::InvalidGeometry),
        session.windowed(window, sent) == session,
{
}

/// A session that was only constructed has no window to write into.
pub proof fn fresh_session_has_no_window(width: nat, height: nat, orientation: Orientation)
    ensures
        Session::initial(width, height, orientation).pixel_refusal() == Some(
            Error::NoActiveWindow,
        ),
{
}

/// Turning the panel always costs the window: whatever was latched before,
/// and however the transfers went, no window is left to write into.
pub proof fn reorientation_loses_window(
    session: Session,
    window: Window,
    latched: bool,
    orientation: Orientation,
    turned: bool,
)
    ensures
        session.windowed(window, latched).reoriented(orientation, turned).pixel_refusal() == Some(
            Error::NoActiveWindow,
        ),
        session.reoriented(orientation, turned).pixel_refusal() == Some(Error::NoActiveWindow),
{
}

/// The first write into a latched window begins with memory-write-start,
/// and each write that follows a successful one in the same window begins
/// with memory-write-continue.
pub proof fn second_write_continues(session: Session, window: Window, pixels: Seq<u16>)
    requires
        session.admits(window),
    ensures
        session.windowed(window, true).pixel_frames(pixels) == framed(
            Command::WriteMemoryStart.code(),
            pixels,
        ),
        session.windowed(window, true).written(true).pixel_frames(pixels) == framed(
            Command::WriteMemoryContinue.code(),
            pixels,
        ),
        session.windowed(window, true).written(true).written(true).pixel_frames(pixels) == framed(
            Command::WriteMemoryContinue.code(),
            pixels,
        ),
        session.windowed(window, true).pixel_refusal() is None,
        session.windowed(window, true).written(true).pixel_refusal() is None,
        session.windowed(window, true).written(true).window() == Some(window),
{
}

/// Writing a non-empty run of pixels is one command transaction followed
/// by one data transaction that carries exactly those pixels.
pub proof fn write_is_command_then_data(session: Session, pixels: Seq<u16>)
    requires
        pixels.len() > 0,
    ensures
        session.pixel_frames(pixels) == seq![
            Frame::Command(session.write_command().code()),
            Frame::Data(pixels),
        ],
{
}

} // verus!
