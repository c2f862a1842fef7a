pub mod app;
pub mod playback;
pub mod redirect;
pub mod request_line;
