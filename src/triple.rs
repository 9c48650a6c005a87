//! Selection of the target triple that names the prebuilt server binary
//! for the host's operating system and CPU architecture.
use vstd::prelude::*;

use crate::text::same_text;

verus! {

/// The triple used when the host is none of the supported pairs.
pub const FALLBACK_TRIPLE: &'static str = "aarch64-apple-darwin";

/// The triple for an operating system name and an architecture name, as
/// the platform reports them (`"macos"`, `"windows"`, `"linux"`;
/// `"aarch64"`, `"x86_64"`).
pub open spec fn triple_for(os: Seq<char>, arch: Seq<char>) -> Seq<char> {
    if os == "macos"@ && arch == "aarch64"@ {
        "aarch64-apple-darwin"@
    } else if os == "macos"@ && arch == "x86_64"@ {
        "x86_64-apple-darwin"@
    } else if os == "windows"@ && arch == "x86_64"@ {
        "x86_64-pc-windows-msvc"@
    } else if os == "linux"@ && arch == "aarch64"@ {
        "aarch64-unknown-linux-gnu"@
    } else if os == "linux"@ && arch == "x86_64"@ {
        "x86_64-unknown-linux-gnu"@
    } else {
        FALLBACK_TRIPLE@
    }
}

/// Whether the pair is one of the five supported hosts.
pub open spec fn is_supported_host(os: Seq<char>, arch: Seq<char>) -> bool {
    ||| os == "macos"@ && arch == "aarch64"@
    ||| os == "macos"@ && arch == "x86_64"@
    ||| os == "windows"@ && arch == "x86_64"@
    ||| os == "linux"@ && arch == "aarch64"@
    ||| os == "linux"@ && arch == "x86_64"@
}

/// The target triple of the host named by `os` and `arch`.
pub fn target_triple(os: &str, arch: &str) -> (r: &'static str)
    ensures
        r@ == triple_for(os@, arch@),
        os@ == "macos"@ && arch@ == "aarch64"@ ==> r@ == "aarch64-apple-darwin"@,
        os@ == "macos"@ && arch@ == "x86_64"@ ==> r@ == "x86_64-apple-darwin"@,
        os@ == "windows"@ && arch@ == "x86_64"@ ==> r@ == "x86_64-pc-windows-msvc"@,
        os@ == "linux"@ && arch@ == "aarch64"@ ==> r@ == "aarch64-unknown-linux-gnu"@,
        os@ == "linux"@ && arch@ == "x86_64"@ ==> r@ == "x86_64-unknown-linux-gnu"@,
        !is_supported_host(os@, arch@) ==> r@ == FALLBACK_TRIPLE@,
{
    proof {
        reveal_strlit("macos");
        reveal_strlit("windows");
        reveal_strlit("linux");
        reveal_strlit("aarch64");
        reveal_strlit("x86_64");
        assert("macos"@[0] != "linux"@[0]);
        assert("macos"@[0] != "windows"@[0]);
        assert("windows"@[0] != "linux"@[0]);
        assert("aarch64"@[0] != "x86_64"@[0]);
    }
    let mac = same_text(os, "macos");
    let win = same_text(os, "windows");
    let linux = same_text(os, "linux");
    let arm = same_text(arch, "aarch64");
    let x64 = same_text(arch, "x86_64");
    if mac && arm {
        "aarch64-apple-darwin"
    } else if mac && x64 {
        "x86_64-apple-darwin"
    } else if win && x64 {
        "x86_64-pc-windows-msvc"
    } else if linux && arm {
        "aarch64-unknown-linux-gnu"
    } else if linux && x64 {
        "x86_64-unknown-linux-gnu"
    } else {
        FALLBACK_TRIPLE
    }
}

} // verus!
