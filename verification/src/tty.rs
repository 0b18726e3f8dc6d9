//! The modes of a TTY handle and the states of console virtual-terminal processing.
use vstd::prelude::*;

verus! {

/// TTY mode type.
#[derive(Clone, Copy, Debug, PartialEq, Eq, Structural)]
pub enum TtyMode {
    /// Initial/normal terminal mode.
    Normal,
    /// Raw input mode (on Windows, ENABLE_WINDOW_INPUT is also enabled).
    Raw,
    /// Binary-safe I/O mode for IPC (Unix only).
    IO,
}

impl TtyMode {
    /// libuv's integer for the mode (`uv_tty_mode_t`).
    pub open spec fn spec_code(self) -> u32 {
        match self {
            TtyMode::Normal => 0,
            TtyMode::Raw => 1,
            TtyMode::IO => 2,
        }
    }

    /// libuv's integer for the mode (`uv_tty_mode_t`).
    pub fn code(self) -> (r: u32)
        ensures
            r == self.spec_code(),
    {
        match self {
            TtyMode::Normal => 0,
            TtyMode::Raw => 1,
            TtyMode::IO => 2,
        }
    }
}

/// Console virtual terminal mode type.
#[derive(Clone, Copy, Debug, PartialEq, Eq, Structural)]
pub enum VTermState {
    /// Virtual terminal sequences are processed by libuv.
    Supported,
    /// Virtual terminal sequences are processed by the console.
    Unsupported,
}

impl VTermState {
    /// libuv's integer for the state (`uv_tty_vtermstate_t`).
    pub open spec fn spec_code(self) -> u32 {
        match self {
            VTermState::Supported => 0,
            VTermState::Unsupported => 1,
        }
    }

    /// libuv's integer for the state (`uv_tty_vtermstate_t`).
    pub fn code(self) -> (r: u32)
        ensures
            r == self.spec_code(),
    {
        match self {
            VTermState::Supported => 0,
            VTermState::Unsupported => 1,
        }
    }
}

/// The outcome of asking libuv for the virtual-terminal state: the status of the call and the
/// state that it wrote. The state is `Supported` only when libuv wrote the code of `Supported`;
/// any other value reads as `Unsupported`.
pub fn vterm_state_result(status: i32, state: u32) -> (r: Result<VTermState, crate::error::Error>)
    ensures
        r is Ok <==> status >= 0,
        r matches Ok(s) ==> (s == VTermState::Supported <==> state == VTermState::Supported.spec_code()),
        r matches Err(e) ==> crate::error::decodes_to(status, e),
{
    match crate::error::uvret(status) {
        Err(e) => Err(e),
        Ok(()) => {
            if state == 0 {
                Ok(VTermState::Supported)
            } else {
                Ok(VTermState::Unsupported)
            }
        },
    }
}

} // verus!
