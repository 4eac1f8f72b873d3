mod capturer;
mod error;
mod ext;
mod model;
mod pixel;
mod pointer_shape;

pub use capturer::{
    readable_texture_desc, shared_memory_name, spec_readable_texture_desc, Capturer,
    CapturerBuffer, VecCapturer, CPU_ACCESS_READ, FORMAT_B8G8R8A8_UNORM, USAGE_STAGING,
};
pub use error::{spec_hex32, spec_hex_digit, spec_message, spec_nibble, Error, WinError};
pub use ext::{FrameInfoExt, MonitorInfoExt, OutDuplDescExt, OutputDescExt};
pub use model::{
    FrameInfo, MonitorInfo, MouseUpdateStatus, OutDuplDesc, OutputDesc, PointerShapeInfo, Rect,
    TextureDesc,
};
pub use pixel::{
    copy_pixels, frame_bytes, lemma_frame_bytes_index, lemma_frame_bytes_pitch_independent,
};
pub use pointer_shape::PointerShapeManager;
