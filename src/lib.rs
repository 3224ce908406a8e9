//! Desktop automation primitives: screen capture as a base64 PNG payload,
//! display and platform description, initialization and status, and
//! permission requests.

pub mod base64_text;
pub mod capture;
pub mod display;
pub mod permission;
pub mod png_image;
pub mod session;
