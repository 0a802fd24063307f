//! What installing the agent takes on each platform.
//!
//! | platform | release asset                   | fetched to             | archive |
//! |----------|---------------------------------|------------------------|---------|
//! | Linux    | `cloudflared-linux-amd64`       | `/tmp/cloudflared`     | no      |
//! | macOS    | `cloudflared-darwin-amd64.tgz`  | `/tmp/cloudflared.tgz` | yes     |
//! | Windows  | `cloudflared-windows-amd64.exe` | the install path       | no      |
//! | other    | none                            |                        |         |
//!
//! The agent is installed at `C:\Windows\Temp\cloudflared.exe` on Windows and
//! at `/tmp/cloudflared` everywhere else.

use crate::text::same_text;
use vstd::prelude::*;
use vstd::string::*;

verus! {

/// The platforms that the locator tells apart.
#[derive(Clone, Copy, PartialEq, Eq, Structural, Debug)]
pub enum Platform {
    Linux,
    MacOs,
    Windows,
    /// Any platform for which the agent publishes no release.
    Other,
}

impl Platform {
    /// The platform that an operating system's name stands for.
    pub open spec fn spec_from_os(name: Seq<char>) -> Platform {
        if name == "linux"@ {
            Platform::Linux
        } else if name == "macos"@ {
            Platform::MacOs
        } else if name == "windows"@ {
            Platform::Windows
        } else {
            Platform::Other
        }
    }

    /// The platform for an operating system's name as Rust spells it
    /// (`linux`, `macos`, `windows`); every other name is `Other`.
    pub fn from_os(name: &str) -> (platform: Platform)
        ensures
            platform == Platform::spec_from_os(name@),
    {
        if same_text(name, "linux") {
            Platform::Linux
        } else if same_text(name, "macos") {
            Platform::MacOs
        } else if same_text(name, "windows") {
            Platform::Windows
        } else {
            Platform::Other
        }
    }

    /// Where the installed agent lies.
    pub open spec fn spec_install_path(self) -> Seq<char> {
        match self {
            Platform::Windows => "C:\\Windows\\Temp\\cloudflared.exe"@,
            _ => "/tmp/cloudflared"@,
        }
    }

    /// The directory that holds the installed agent.
    pub open spec fn spec_install_dir(self) -> Seq<char> {
        match self {
            Platform::Windows => "C:\\Windows\\Temp"@,
            _ => "/tmp"@,
        }
    }

    /// The name of the platform's release asset, if the agent publishes one.
    pub open spec fn spec_asset_name(self) -> Option<Seq<char>> {
        match self {
            Platform::Linux => Some("cloudflared-linux-amd64"@),
            Platform::MacOs => Some("cloudflared-darwin-amd64.tgz"@),
            Platform::Windows => Some("cloudflared-windows-amd64.exe"@),
            Platform::Other => None,
        }
    }

    /// Where the fetched asset is written.
    pub open spec fn spec_download_path(self) -> Seq<char> {
        match self {
            Platform::MacOs => "/tmp/cloudflared.tgz"@,
            _ => self.spec_install_path(),
        }
    }

    /// Whether the asset is an archive that has to be unpacked before use.
    pub open spec fn spec_needs_extraction(self) -> bool {
        self == Platform::MacOs
    }

    /// Where the installed agent lies.
    pub fn install_path(&self) -> (path: &'static str)
        ensures
            path@ == self.spec_install_path(),
    {
        match self {
            Platform::Windows => "C:\\Windows\\Temp\\cloudflared.exe",
            _ => "/tmp/cloudflared",
        }
    }

    /// The directory that holds the installed agent.
    pub fn install_dir(&self) -> (dir: &'static str)
        ensures
            dir@ == self.spec_install_dir(),
    {
        match self {
            Platform::Windows => "C:\\Windows\\Temp",
            _ => "/tmp",
        }
    }

    /// The name of the platform's release asset, if the agent publishes one.
    pub fn asset_name(&self) -> (name: Option<&'static str>)
        ensures
            match name {
                Some(text) => self.spec_asset_name() == Some(text@),
                None => self.spec_asset_name() is None,
            },
    {
        match self {
            Platform::Linux => Some("cloudflared-linux-amd64"),
            Platform::MacOs => Some("cloudflared-darwin-amd64.tgz"),
            Platform::Windows => Some("cloudflared-windows-amd64.exe"),
            Platform::Other => None,
        }
    }

    /// Where the fetched asset is written.
    pub fn download_path(&self) -> (path: &'static str)
        ensures
            path@ == self.spec_download_path(),
    {
        match self {
            Platform::MacOs => "/tmp/cloudflared.tgz",
            _ => self.install_path(),
        }
    }

    /// Whether the asset is an archive that has to be unpacked before use.
    pub fn needs_extraction(&self) -> (yes: bool)
        ensures
            yes == self.spec_needs_extraction(),
    {
        match self {
            Platform::MacOs => true,
            _ => false,
        }
    }
}

} // verus!
