//! Shared vocabulary of the capability contract: the clear regions a caller
//! can name, and the platforms a handle can be created for.

use vstd::prelude::*;

verus! {

/// The region of the terminal display that a clear operation affects.
#[derive(Clone, Copy, Debug, PartialEq, Eq, Structural)]
pub enum ClearType {
    /// Every cell of the terminal.
    All,
    /// Every cell after the cursor position.
    AfterCursor,
    /// Every cell before the cursor position.
    BeforeCursor,
    /// Every cell of the line the cursor is on.
    CurrentLine,
    /// Every cell from the cursor position until the next line.
    UntilNewLine,
}

/// The platform a terminal handle is created for.
///
/// Backend selection is a pure function of this value; `Unknown` stands for
/// every platform without a native backend and routes to the inert fallback.
#[derive(Clone, Copy, Debug, PartialEq, Eq, Structural)]
pub enum Platform {
    /// A Unix-like operating system with an ANSI terminal.
    Unix,
    /// A Windows console.
    Windows,
    /// Any platform without a native backend.
    Unknown,
}

} // verus!
