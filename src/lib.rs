//! Captioned, framed images: canvas sizing, border drawing, compositing and
//! caption placement, proved over a plain RGB bitmap.

pub mod args;
pub mod bitmap;
pub mod canvas;
pub mod error;
pub mod font;
pub mod frame;

pub use args::{captions, Args};
pub use bitmap::{Bitmap, Rgb};
pub use canvas::{build_canvas, draw_hollow_rect, BORDER_THICKNESS, PADDING, TEXT_MARGIN, TEXT_SIZE};
pub use error::FrameError;
pub use font::load_font;
pub use frame::{frame_image, framed_size, text_x, text_y, Framed};
