//! Terminal dimensions and the window-size request sent to the terminal device.

use vstd::prelude::*;

verus! {

/// Rows a terminal has before anyone resizes it.
pub const DEFAULT_ROWS: u16 = 24;

/// Columns a terminal has before anyone resizes it.
pub const DEFAULT_COLS: u16 = 57;

/// Dimensions of a terminal viewport in character cells.
#[derive(Clone, Copy, Debug, PartialEq, Eq, Structural)]
pub struct TerminalSize {
    pub rows: u16,
    pub cols: u16,
}

/// The record a window-size ioctl hands to the kernel.
#[derive(Clone, Copy, Debug, PartialEq, Eq, Structural)]
pub struct WindowSize {
    pub ws_row: u16,
    pub ws_col: u16,
    pub ws_xpixel: u16,
    pub ws_ypixel: u16,
}

/// A window-size ioctl to issue: the descriptor and the record.
#[derive(Clone, Copy, Debug, PartialEq, Eq, Structural)]
pub struct SizeRequest {
    pub fd: i32,
    pub size: WindowSize,
}

/// Why a size update did not take effect.
#[derive(Clone, Copy, Debug, PartialEq, Eq, Structural)]
pub struct ResizeError {
    pub errno: i32,
}

/// The kernel record for `size`: the cell counts, and no pixel dimensions.
pub open spec fn window_of(size: TerminalSize) -> WindowSize {
    WindowSize { ws_row: size.rows, ws_col: size.cols, ws_xpixel: 0, ws_ypixel: 0 }
}

/// The size every new terminal starts with.
pub open spec fn default_size() -> TerminalSize {
    TerminalSize { rows: DEFAULT_ROWS, cols: DEFAULT_COLS }
}

impl TerminalSize {
    pub fn new(rows: u16, cols: u16) -> (size: TerminalSize)
        ensures
            size == (TerminalSize { rows, cols }),
    {
        TerminalSize { rows, cols }
    }

    /// The record to hand to the kernel for this size.
    pub fn window_size(&self) -> (ws: WindowSize)
        ensures
            ws == window_of(*self),
    {
        WindowSize { ws_row: self.rows, ws_col: self.cols, ws_xpixel: 0, ws_ypixel: 0 }
    }
}

impl Default for TerminalSize {
    fn default() -> (size: TerminalSize)
        ensures
            size == default_size(),
    {
        TerminalSize { rows: DEFAULT_ROWS, cols: DEFAULT_COLS }
    }
}

/// The request that sets the terminal behind `fd` to `rows` by `cols`.
pub fn set_terminal_size(fd: i32, rows: u16, cols: u16) -> (request: SizeRequest)
    ensures
        request.fd == fd,
        request.size == window_of(TerminalSize { rows, cols }),
{
    SizeRequest { fd, size: TerminalSize::new(rows, cols).window_size() }
}

/// What the status of a window-size ioctl means: `-1` is failure, with the
/// error number read right after the call; anything else is success. A
/// failure leaves the session as it was and may be ignored.
pub open spec fn size_result(status: i32, errno: i32) -> Result<(), ResizeError> {
    if status == -1 {
        Err(ResizeError { errno })
    } else {
        Ok(())
    }
}

/// Reads the status that a window-size ioctl returned.
pub fn size_outcome(status: i32, errno: i32) -> (outcome: Result<(), ResizeError>)
    ensures
        outcome == size_result(status, errno),
{
    if status == -1 {
        Err(ResizeError { errno })
    } else {
        Ok(())
    }
}

} // verus!
