//! Platform families and their identifiers.
use vstd::prelude::*;
use crate::text::same_text;

verus! {

/// The operating system the facts are resolved for.
#[derive(Clone, Copy, Debug, PartialEq, Eq, Structural)]
pub enum Platform {
    Windows,
    MacOs,
    Ios,
    Linux,
    Android,
    FreeBsd,
    DragonFly,
    OpenBsd,
    NetBsd,
    Other,
}

/// The platform that the identifier `id` names, in the vocabulary of Rust's
/// `target_os` (`"linux"`, `"macos"`, ...).
pub open spec fn platform_of_id(id: Seq<char>) -> Platform {
    if id == "windows"@ {
        Platform::Windows
    } else if id == "macos"@ {
        Platform::MacOs
    } else if id == "ios"@ {
        Platform::Ios
    } else if id == "linux"@ {
        Platform::Linux
    } else if id == "android"@ {
        Platform::Android
    } else if id == "freebsd"@ {
        Platform::FreeBsd
    } else if id == "dragonfly"@ {
        Platform::DragonFly
    } else if id == "openbsd"@ {
        Platform::OpenBsd
    } else if id == "netbsd"@ {
        Platform::NetBsd
    } else {
        Platform::Other
    }
}

/// Whether `p` belongs to the Unix family.
pub open spec fn unix_like(p: Platform) -> bool {
    match p {
        Platform::Linux | Platform::FreeBsd | Platform::OpenBsd | Platform::MacOs | Platform::Ios
        | Platform::DragonFly | Platform::NetBsd => true,
        _ => false,
    }
}

impl Platform {
    /// The platform named by a `target_os` identifier; `Other` for any
    /// identifier outside the table.
    pub fn from_id(id: &str) -> (r: Platform)
        ensures
            r == platform_of_id(id@),
    {
        if same_text(id, "windows") {
            Platform::Windows
        } else if same_text(id, "macos") {
            Platform::MacOs
        } else if same_text(id, "ios") {
            Platform::Ios
        } else if same_text(id, "linux") {
            Platform::Linux
        } else if same_text(id, "android") {
            Platform::Android
        } else if same_text(id, "freebsd") {
            Platform::FreeBsd
        } else if same_text(id, "dragonfly") {
            Platform::DragonFly
        } else if same_text(id, "openbsd") {
            Platform::OpenBsd
        } else if same_text(id, "netbsd") {
            Platform::NetBsd
        } else {
            Platform::Other
        }
    }
}

/// Whether `platform` is one of Linux, FreeBSD, OpenBSD, macOS, iOS,
/// DragonFly BSD or NetBSD.
pub fn is_unix_like(platform: Platform) -> (r: bool)
    ensures
        r == unix_like(platform),
        r <==> (platform == Platform::Linux || platform == Platform::FreeBsd || platform
            == Platform::OpenBsd || platform == Platform::MacOs || platform == Platform::Ios
            || platform == Platform::DragonFly || platform == Platform::NetBsd),
{
    match platform {
        Platform::Linux | Platform::FreeBsd | Platform::OpenBsd | Platform::MacOs | Platform::Ios
        | Platform::DragonFly | Platform::NetBsd => true,
        _ => false,
    }
}

/// A platform identifier is classed as Unix-family exactly when it is one of
/// `linux`, `freebsd`, `openbsd`, `macos`, `ios`, `dragonfly` and `netbsd`;
/// in particular `windows` is not.
pub proof fn lemma_unix_identifiers(id: Seq<char>)
    ensures
        unix_like(platform_of_id(id)) <==> (id == "linux"@ || id == "freebsd"@ || id
            == "openbsd"@ || id == "macos"@ || id == "ios"@ || id == "dragonfly"@ || id
            == "netbsd"@),
        !unix_like(platform_of_id("windows"@)),
{
    reveal_strlit("windows");
    reveal_strlit("macos");
    reveal_strlit("ios");
    reveal_strlit("linux");
    reveal_strlit("android");
    reveal_strlit("freebsd");
    reveal_strlit("dragonfly");
    reveal_strlit("openbsd");
    reveal_strlit("netbsd");
    assert("freebsd"@[0] != "windows"@[0] && "freebsd"@[0] != "android"@[0]);
    assert("openbsd"@[0] != "windows"@[0] && "openbsd"@[0] != "android"@[0]);
}

} // verus!
