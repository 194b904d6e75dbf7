//! Discovery of a CH340 USB-to-serial adapter among the serial ports of a
//! host, the order in which the matching ports are tried, and the framing of
//! what one read from the opened port delivered.
//!
//! The operating system's part (listing ports, opening one, reading bytes) is
//! left to the caller: the functions here take what those calls returned and
//! say what is to be done next.

pub mod connector;
pub mod descriptor;
pub mod matcher;
pub mod reader;
pub mod session;
pub mod text;
