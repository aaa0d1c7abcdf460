//! What depends on the operating system the application runs on: the name of
//! the release asset that holds the sidecar build for it.

use vstd::prelude::*;

verus! {

/// The operating systems that the application tells apart.
#[derive(Clone, Copy, PartialEq, Eq, Structural, Debug)]
pub enum TargetOs {
    Windows,
    MacOs,
    /// Linux and every other system.
    Other,
}

/// The release asset for `os`.
pub open spec fn asset_name(os: TargetOs) -> Seq<char> {
    match os {
        TargetOs::Windows => "opencode-windows-x64.zip"@,
        TargetOs::MacOs => "opencode-macos-universal.zip"@,
        TargetOs::Other => "opencode-linux-x64.tar.gz"@,
    }
}

/// The name of the release asset that holds the sidecar build for `os`.
pub fn platform_asset_name(os: TargetOs) -> (name: &'static str)
    ensures
        name@ == asset_name(os),
{
    match os {
        TargetOs::Windows => "opencode-windows-x64.zip",
        TargetOs::MacOs => "opencode-macos-universal.zip",
        TargetOs::Other => "opencode-linux-x64.tar.gz",
    }
}

/// Where the newest release of `asset` is downloaded from.
pub open spec fn download_url(asset: Seq<char>) -> Seq<char> {
    "https://github.com/mwyant/opencode/releases/latest/download/"@ + asset
}

/// The download address of `asset`.
pub fn asset_download_url(asset: &str) -> (url: String)
    ensures
        url@ == download_url(asset@),
{
    let mut url = String::new();
    url.append("https://github.com/mwyant/opencode/releases/latest/download/");
    url.append(asset);
    url
}

} // verus!
