//! Screen capture engine for Wayland compositors.
//!
//! The engine keeps what is known of the outputs, negotiates the buffer of a
//! capture and follows the frame to its end, brings the captured pixels to
//! RGBA, and finds a selected region in the buffer of the output that it lies
//! on. It decides and does not act: whoever talks to the compositor hands the
//! compositor's events in, and is told what to do next.

pub mod area;
pub mod clapargs;
pub mod convert;
pub mod filewriter;
pub mod frame;
pub mod harihierror;
pub mod haruhierror;
pub mod overlay;
pub mod screenshot;
pub mod selection;
pub mod shm;
pub mod state;
pub mod text;
pub mod utils;
pub mod wlrcopystate;
pub mod wlrshotbasestate;

pub use clapargs::{to_capture_option, HaruhiCli};
pub use convert::{create_converter, ColorType, Converter, Format};
pub use filewriter::random_file_path;
pub use harihierror::HarihiError;
pub use haruhierror::HaruhiError;
pub use haruhierror::HaruhiError as Error;
pub use screenshot::{AreaSelectCallback, CaptureOption, ImageInfo, ImageViewInfo};
pub use selection::{waysip_to_region, SlintSelection, SwayWindowSelect};
pub use state::HaruhiShotState;
pub use utils::{Position, Region, Size, TopLevel, Transform, WlOutputInfo};
pub use wlrcopystate::{FrameFormat, FrameInfo, ScreenCopyState, SlurpArea};
