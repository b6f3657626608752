//! The operating systems on which a file can be revealed.

use vstd::prelude::*;
use crate::text::same_text;

verus! {

/// An operating system with a native way to reveal a file.
#[derive(Clone, Copy, Debug, PartialEq, Eq, Structural)]
pub enum Platform {
    Windows,
    MacOs,
    Linux,
}

impl Platform {
    /// The platform that Rust calls `name` as a target operating system:
    /// `windows`, `macos` or `linux`, in lower case. Any other name has no
    /// platform here.
    pub open spec fn named(name: Seq<char>) -> Option<Platform> {
        if name == "windows"@ {
            Some(Platform::Windows)
        } else if name == "macos"@ {
            Some(Platform::MacOs)
        } else if name == "linux"@ {
            Some(Platform::Linux)
        } else {
            None
        }
    }

    /// Finds the platform by the name of a target operating system, as
    /// `std::env::consts::OS` holds it for the running program.
    pub fn from_target_os(name: &str) -> (platform: Option<Platform>)
        ensures
            platform == Platform::named(name@),
    {
        if same_text(name, "windows") {
            Some(Platform::Windows)
        } else if same_text(name, "macos") {
            Some(Platform::MacOs)
        } else if same_text(name, "linux") {
            Some(Platform::Linux)
        } else {
            None
        }
    }

    /// The name of the program that reveals a file on this platform.
    pub open spec fn program(self) -> Seq<char> {
        match self {
            Platform::Windows => "explorer"@,
            Platform::MacOs => "open"@,
            Platform::Linux => "xdg-open"@,
        }
    }

    /// The program to start on this platform, looked up on the search path.
    pub fn executable(self) -> (name: &'static str)
        ensures
            name@ == self.program(),
    {
        match self {
            Platform::Windows => "explorer",
            Platform::MacOs => "open",
            Platform::Linux => "xdg-open",
        }
    }
}

} // verus!
