//! The resize planner: turns a chosen window and preset into the single
//! geometry change the operating system is asked to make, and maps the
//! OS's report back into the error taxonomy.
//!
//! The OS call itself happens outside this crate; everything here is the
//! decision of what to ask for and how to read the answer.

use vstd::prelude::*;

use crate::window::WindowHandle;

verus! {

/// Why a resize request was not carried out. Both conditions are
/// recoverable: the caller discards them and the window keeps its size.
#[derive(Clone, Copy, PartialEq, Eq, Structural, Debug)]
pub enum ResizeError {
    /// The operating system no longer knows the handle; the window
    /// closed between the snapshot and the request.
    TargetNotFound,
    /// A dimension cannot be represented in the OS coordinate type.
    InvalidGeometry,
}

/// One geometry change to hand to the operating system: size only. The
/// two keep-flags are a fixed policy, always set together: the window is
/// never moved and its stacking order never changes.
#[derive(Clone, Copy, PartialEq, Eq, Structural, Debug)]
pub struct ResizeCommand {
    pub handle: WindowHandle,
    pub width: i32,
    pub height: i32,
    pub keep_position: bool,
    pub keep_z_order: bool,
}

/// True when `v` is positive and representable in the OS coordinate
/// type, a signed 32-bit integer.
pub open spec fn spec_dim_ok(v: u32) -> bool {
    1 <= v <= i32::MAX as u32
}

/// Build the single OS geometry call for `handle` at `width` x `height`,
/// or reject dimensions the OS coordinate type cannot carry.
pub fn make_command(handle: WindowHandle, width: u32, height: u32) -> (r: Result<
    ResizeCommand,
    ResizeError,
>)
    ensures
        spec_dim_ok(width) && spec_dim_ok(height) ==> r == Ok::<ResizeCommand, ResizeError>(
            (ResizeCommand {
                handle,
                width: width as i32,
                height: height as i32,
                keep_position: true,
                keep_z_order: true,
            }),
        ),
        !(spec_dim_ok(width) && spec_dim_ok(height)) ==> r == Err::<ResizeCommand, ResizeError>(
            ResizeError::InvalidGeometry,
        ),
{
    if 1 <= width && width <= i32::MAX as u32 && 1 <= height && height <= i32::MAX as u32 {
        Ok(
            ResizeCommand {
                handle,
                width: width as i32,
                height: height as i32,
                keep_position: true,
                keep_z_order: true,
            },
        )
    } else {
        Err(ResizeError::InvalidGeometry)
    }
}

/// Read the operating system's report of the geometry call: success is
/// success, and failure means the handle went stale.
pub fn interpret_os_report(succeeded: bool) -> (r: Result<(), ResizeError>)
    ensures
        succeeded ==> r == Ok::<(), ResizeError>(()),
        !succeeded ==> r == Err::<(), ResizeError>(ResizeError::TargetNotFound),
{
    if succeeded {
        Ok(())
    } else {
        Err(ResizeError::TargetNotFound)
    }
}

} // verus!
