//! Extension traits deriving the values callers act on from the plain
//! descriptor types: output geometry, required buffer size, per-frame
//! update flags and the primary-monitor flag.

use crate::model::{FrameInfo, MonitorInfo, MouseUpdateStatus, OutDuplDesc, OutputDesc};
use vstd::prelude::*;

verus! {

/// Pixel geometry of an output, derived from its desktop coordinates.
pub trait OutputDescExt {
    /// The output's width in pixels.
    spec fn spec_width(&self) -> int;

    /// The output's height in pixels.
    spec fn spec_height(&self) -> int;

    fn width(&self) -> (r: u32)
        requires
            0 <= self.spec_width() <= u32::MAX,
        ensures
            r == self.spec_width(),
    ;

    fn height(&self) -> (r: u32)
        requires
            0 <= self.spec_height() <= u32::MAX,
        ensures
            r == self.spec_height(),
    ;
}

impl OutputDescExt for OutputDesc {
    open spec fn spec_width(&self) -> int {
        self.desktop_coordinates.right - self.desktop_coordinates.left
    }

    open spec fn spec_height(&self) -> int {
        self.desktop_coordinates.bottom - self.desktop_coordinates.top
    }

    fn width(&self) -> (r: u32) {
        ((self.desktop_coordinates.right as i64) - (self.desktop_coordinates.left as i64)) as u32
    }

    fn height(&self) -> (r: u32) {
        ((self.desktop_coordinates.bottom as i64) - (self.desktop_coordinates.top as i64)) as u32
    }
}

/// The destination-buffer size a duplication mode requires.
pub trait OutDuplDescExt {
    /// The required buffer size in bytes: four bytes for each pixel.
    spec fn spec_buffer_size(&self) -> int;

    fn calc_buffer_size(&self) -> (r: usize)
        requires
            self.spec_buffer_size() <= usize::MAX,
        ensures
            r == self.spec_buffer_size(),
    ;
}

impl OutDuplDescExt for OutDuplDesc {
    /// Frames are delivered as packed 32-bit BGRA pixels, so a mode of
    /// `w x h` pixels needs `w * h * 4` bytes.
    open spec fn spec_buffer_size(&self) -> int {
        self.mode_width * self.mode_height * 4
    }

    fn calc_buffer_size(&self) -> (r: usize) {
        let w = self.mode_width as usize;
        let h = self.mode_height as usize;
        proof {
            assert(w * h >= 0) by (nonlinear_arith);
            assert(w * h * 4 == self.spec_buffer_size()) by (nonlinear_arith)
                requires
                    w == self.mode_width,
                    h == self.mode_height,
            ;
        }
        w * h * 4
    }
}

/// What one acquired frame's metadata says changed since the last acquire.
pub trait FrameInfoExt {
    /// Whether the desktop image was updated.
    spec fn spec_desktop_updated(&self) -> bool;

    /// Whether the mouse position, and additionally its shape, changed.
    spec fn spec_mouse_updated(&self) -> MouseUpdateStatus;

    /// Whether a new cursor shape can be queried for this frame.
    spec fn spec_pointer_shape_updated(&self) -> bool;

    fn desktop_updated(&self) -> (r: bool)
        ensures
            r == self.spec_desktop_updated(),
    ;

    fn mouse_updated(&self) -> (r: MouseUpdateStatus)
        ensures
            r == self.spec_mouse_updated(),
    ;

    fn pointer_shape_updated(&self) -> (r: bool)
        ensures
            r == self.spec_pointer_shape_updated(),
    ;
}

impl FrameInfoExt for FrameInfo {
    /// The desktop image was updated when the last-present timestamp is
    /// nonzero.
    open spec fn spec_desktop_updated(&self) -> bool {
        self.last_present_time != 0
    }

    /// The mouse position changed when the last-mouse-update timestamp is
    /// nonzero; its shape changed as well when the reported shape-buffer
    /// size is also nonzero.
    open spec fn spec_mouse_updated(&self) -> MouseUpdateStatus {
        if self.last_mouse_update_time != 0 {
            MouseUpdateStatus {
                position_updated: true,
                shape_updated: self.pointer_shape_buffer_size != 0,
            }
        } else {
            MouseUpdateStatus { position_updated: false, shape_updated: false }
        }
    }

    /// A new cursor shape is available exactly when the reported
    /// shape-buffer size is nonzero.
    open spec fn spec_pointer_shape_updated(&self) -> bool {
        self.pointer_shape_buffer_size != 0
    }

    fn desktop_updated(&self) -> (r: bool) {
        self.last_present_time != 0
    }

    fn mouse_updated(&self) -> (r: MouseUpdateStatus) {
        if self.last_mouse_update_time != 0 {
            MouseUpdateStatus {
                position_updated: true,
                shape_updated: self.pointer_shape_buffer_size != 0,
            }
        } else {
            MouseUpdateStatus { position_updated: false, shape_updated: false }
        }
    }

    fn pointer_shape_updated(&self) -> (r: bool) {
        self.pointer_shape_buffer_size != 0
    }
}

/// Monitor attributes derived from the window system's monitor record.
pub trait MonitorInfoExt {
    /// Whether this monitor is the primary monitor.
    spec fn spec_is_primary(&self) -> bool;

    fn is_primary(&self) -> (r: bool)
        ensures
            r == self.spec_is_primary(),
    ;
}

impl MonitorInfoExt for MonitorInfo {
    /// The window system sets flag bit 0 on the primary monitor alone.
    open spec fn spec_is_primary(&self) -> bool {
        self.flags == 1
    }

    fn is_primary(&self) -> (r: bool) {
        self.flags == 0x01
    }
}

} // verus!
