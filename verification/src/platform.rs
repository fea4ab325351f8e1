//! The operating systems that the helpers tell apart.

use vstd::prelude::*;
use crate::text::str_equal;

verus! {

/// Name under which Windows is known as an operating system.
pub const OS_WINDOWS: &'static str = "windows";

/// Name under which macOS is known as an operating system.
pub const OS_MACOS: &'static str = "macos";

/// Name under which Linux is known as an operating system.
pub const OS_LINUX: &'static str = "linux";

/// The operating systems on which a program can be started at login, and
/// the others.
#[derive(Clone, Copy, Debug, PartialEq, Eq, Structural)]
pub enum Platform {
    Windows,
    MacOs,
    Other,
}

/// The platform that goes by the name `os`.
pub open spec fn platform_named(os: Seq<char>) -> Platform {
    if os == OS_WINDOWS@ {
        Platform::Windows
    } else if os == OS_MACOS@ {
        Platform::MacOs
    } else {
        Platform::Other
    }
}

impl Platform {
    /// The platform that goes by the name `os`, as `std::env::consts::OS`
    /// spells it.
    pub fn from_os(os: &str) -> (r: Platform)
        ensures
            r == platform_named(os@),
    {
        if str_equal(os, OS_WINDOWS) {
            Platform::Windows
        } else if str_equal(os, OS_MACOS) {
            Platform::MacOs
        } else {
            Platform::Other
        }
    }
}

} // verus!
