//! Protocol core for the RM68120 parallel-bus TFT display controller.

pub mod builder;
pub mod command;
pub mod driver;
pub mod error;
pub mod orientation;
pub mod session;
pub mod transaction;
pub mod window;

pub use builder::Rm68120Builder;
pub use command::Command;
pub use driver::Rm68120;
pub use error::Error;
pub use orientation::Orientation;
pub use session::{Addressing, Session};
pub use transaction::{frame, Frame, Transaction};
pub use window::Window;
