//! Command encoder and formatted-text combinators for ESC/POS receipt
//! printers, with the settings that say who may print.
//!
//! Nothing here performs I/O. A [`Printer`] turns directives into the exact
//! bytes that the device expects and queues them; the owner of the transport
//! collects the queue and writes it out.

pub mod command;
pub mod error;
pub mod format;
pub mod print_mode;
pub mod printer;
pub mod protocol;
pub mod settings;
pub mod text;

pub use command::{
    CharCodeTable, CommandKind, CutMode, EscPosCmd, Font, Justification, PaperSensorMode,
    UnderlineMode,
};
pub use error::PrinterError;
pub use format::{FmtStr, TextAttribute};
pub use print_mode::{PrintFlag, PrintMode};
pub use printer::Printer;
pub use settings::{Role, Settings, User, UserLookup};
pub use text::escape;
