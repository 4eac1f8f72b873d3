//! Plain data types describing outputs, duplication modes, frames and
//! pointer shapes.
//!
//! Each type holds, as plain integer fields, exactly what the capture
//! logic reads: output geometry, the duplication mode's pixel size and
//! rotation, per-frame timestamps and the cursor-shape metadata.

use vstd::prelude::*;

verus! {

/// A rectangle in desktop coordinates (edges in pixels, exclusive on the
/// right and bottom).
#[derive(Clone, Copy, Debug, PartialEq, Eq, Structural)]
pub struct Rect {
    pub left: i32,
    pub top: i32,
    pub right: i32,
    pub bottom: i32,
}

impl Default for Rect {
    fn default() -> (r: Self)
        ensures
            r == (Rect { left: 0, top: 0, right: 0, bottom: 0 }),
    {
        Rect { left: 0, top: 0, right: 0, bottom: 0 }
    }
}

/// Description of one display output: where it sits on the desktop and how
/// the panel is rotated.
///
/// Rotation is encoded as the compositor reports it: 0 unspecified,
/// 1 identity, 2 rotated 90 degrees, 3 rotated 180 degrees, 4 rotated
/// 270 degrees.
#[derive(Clone, Copy, Debug, PartialEq, Eq, Structural)]
pub struct OutputDesc {
    pub desktop_coordinates: Rect,
    pub rotation: u32,
}

impl Default for OutputDesc {
    fn default() -> (r: Self)
        ensures
            r == (OutputDesc {
                desktop_coordinates: Rect { left: 0, top: 0, right: 0, bottom: 0 },
                rotation: 0,
            }),
    {
        OutputDesc { desktop_coordinates: Rect { left: 0, top: 0, right: 0, bottom: 0 }, rotation: 0 }
    }
}

/// Description of a duplication session's mode: the pixel size of the
/// frames it delivers.
#[derive(Clone, Copy, Debug, PartialEq, Eq, Structural)]
pub struct OutDuplDesc {
    pub mode_width: u32,
    pub mode_height: u32,
    pub rotation: u32,
}

impl Default for OutDuplDesc {
    fn default() -> (r: Self)
        ensures
            r == (OutDuplDesc { mode_width: 0, mode_height: 0, rotation: 0 }),
    {
        OutDuplDesc { mode_width: 0, mode_height: 0, rotation: 0 }
    }
}

/// Metadata delivered with one acquired frame.
///
/// A zero timestamp means "not updated since the last acquire"; a nonzero
/// pointer-shape buffer size means the cursor shape changed and can be
/// queried while the frame is held.
#[derive(Clone, Copy, Debug, PartialEq, Eq, Structural)]
pub struct FrameInfo {
    pub last_present_time: u64,
    pub last_mouse_update_time: u64,
    pub pointer_shape_buffer_size: u32,
}

impl Default for FrameInfo {
    fn default() -> (r: Self)
        ensures
            r == (FrameInfo {
                last_present_time: 0,
                last_mouse_update_time: 0,
                pointer_shape_buffer_size: 0,
            }),
    {
        FrameInfo { last_present_time: 0, last_mouse_update_time: 0, pointer_shape_buffer_size: 0 }
    }
}

/// Whether the mouse position and/or the mouse shape changed in a frame.
#[derive(Clone, Copy, Debug, PartialEq, Eq, Structural)]
pub struct MouseUpdateStatus {
    pub position_updated: bool,
    pub shape_updated: bool,
}

/// The cursor shape's metadata, paired with a variable-length pixel buffer
/// held elsewhere.
///
/// The shape type is encoded as the compositor reports it: 1 monochrome,
/// 2 color, 4 masked color.
#[derive(Clone, Copy, Debug, PartialEq, Eq, Structural)]
pub struct PointerShapeInfo {
    pub shape_type: u32,
    pub width: u32,
    pub height: u32,
    pub pitch: u32,
    pub hotspot_x: i32,
    pub hotspot_y: i32,
}

impl Default for PointerShapeInfo {
    fn default() -> (r: Self)
        ensures
            r == (PointerShapeInfo {
                shape_type: 0,
                width: 0,
                height: 0,
                pitch: 0,
                hotspot_x: 0,
                hotspot_y: 0,
            }),
    {
        PointerShapeInfo { shape_type: 0, width: 0, height: 0, pitch: 0, hotspot_x: 0, hotspot_y: 0 }
    }
}

/// Information about the monitor behind an output, as the window system
/// reports it.
///
/// `flags` bit 0 marks the primary monitor.
#[derive(Clone, Copy, Debug, PartialEq, Eq, Structural)]
pub struct MonitorInfo {
    pub rc_monitor: Rect,
    pub rc_work: Rect,
    pub flags: u32,
}

impl Default for MonitorInfo {
    fn default() -> (r: Self)
        ensures
            r == (MonitorInfo {
                rc_monitor: Rect { left: 0, top: 0, right: 0, bottom: 0 },
                rc_work: Rect { left: 0, top: 0, right: 0, bottom: 0 },
                flags: 0,
            }),
    {
        MonitorInfo {
            rc_monitor: Rect { left: 0, top: 0, right: 0, bottom: 0 },
            rc_work: Rect { left: 0, top: 0, right: 0, bottom: 0 },
            flags: 0,
        }
    }
}

/// Description of the CPU-readable staging texture a capturer reads frames
/// through: the rotated frame size plus the fixed creation parameters
/// (staging usage, CPU read access, 32-bit BGRA format, one mip level, one
/// array slice, no multisampling).
#[derive(Clone, Copy, Debug, PartialEq, Eq, Structural)]
pub struct TextureDesc {
    pub width: u32,
    pub height: u32,
    pub mip_levels: u32,
    pub array_size: u32,
    pub format: u32,
    pub sample_count: u32,
    pub sample_quality: u32,
    pub usage: u32,
    pub bind_flags: u32,
    pub cpu_access_flags: u32,
    pub misc_flags: u32,
}

} // verus!
