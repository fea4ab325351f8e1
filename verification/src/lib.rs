//! Small helpers for a desktop application: stripping terminal colour codes
//! from text, planning the file that starts the program at login, choosing
//! the command that opens a URL, shaping notification text, recognising image
//! file names and picking the system language.
//!
//! Nothing in here reads the environment, touches the disk or starts a
//! process. Each function takes what was learnt about the machine as plain
//! values and returns what is to be done.

pub mod autostart;
pub mod color;
pub mod color_laws;
pub mod desktop;
pub mod gbk;
pub mod image;
pub mod notify;
pub mod platform;
pub mod search;
pub mod text;

pub use autostart::StartError;
pub use autostart::StartFile;
pub use autostart::StartHelper;
pub use color::eliminate_color;
pub use desktop::get_desktop_path;
pub use desktop::get_system_lang;
pub use desktop::open_url;
pub use desktop::DesktopProbe;
pub use desktop::Launch;
pub use image::has_img_ext;
pub use notify::inform;
pub use notify::Notice;
pub use platform::Platform;
