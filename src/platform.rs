use vstd::prelude::*;
use vstd::string::*;

verus! {

/// Operating systems for which a release archive is published.
#[derive(Clone, Copy, Debug, PartialEq, Eq, Structural)]
pub enum Os {
    MacOs,
    Linux,
    Windows,
}

/// A supported host: the architecture is always x86_64, so only the OS varies.
#[derive(Clone, Copy, Debug, PartialEq, Eq, Structural)]
pub struct PlatformKey {
    pub os: Os,
}

/// Why a host cannot be served.
#[derive(Clone, Debug, PartialEq, Eq)]
pub enum PlatformError {
    UnsupportedArch(String),
    UnsupportedOs(String),
}

/// The OS named by a host-reported string, if it is one of the supported ones.
pub open spec fn os_named(s: Seq<char>) -> Option<Os> {
    if s == "macos"@ {
        Some(Os::MacOs)
    } else if s == "linux"@ {
        Some(Os::Linux)
    } else if s == "windows"@ {
        Some(Os::Windows)
    } else {
        None
    }
}

/// The verdict on a host-reported (architecture, OS) pair.
pub open spec fn resolve_spec(arch: Seq<char>, os: Seq<char>) -> Result<PlatformKey, PlatformError> {
    if arch != "x86_64"@ {
        Err(PlatformError::UnsupportedArch(arbitrary()))
    } else {
        match os_named(os) {
            Some(o) => Ok(PlatformKey { os: o }),
            None => Err(PlatformError::UnsupportedOs(arbitrary())),
        }
    }
}

/// The fragment that names a platform in a release archive's file name.
pub open spec fn archive_tag_spec(os: Os) -> Seq<char> {
    match os {
        Os::MacOs => "mac"@,
        Os::Linux => "linux"@,
        Os::Windows => "windows"@,
    }
}

/// The file name of the server executable inside the archive.
pub open spec fn binary_name_spec(os: Os) -> Seq<char> {
    match os {
        Os::Windows => "clangd.exe"@,
        _ => "clangd"@,
    }
}

/// Character-wise equality of two strings.
pub fn str_eq(a: &str, b: &str) -> (r: bool)
    ensures
        r == (a@ == b@),
{
    let n = a.unicode_len();
    if n != b.unicode_len() {
        return false;
    }
    let mut i: usize = 0;
    while i < n
        invariant
            n == a@.len(),
            n == b@.len(),
            i <= n,
            a@.subrange(0, i as int) == b@.subrange(0, i as int),
        decreases n - i,
    {
        if a.get_char(i) != b.get_char(i) {
            return false;
        }
        proof {
            assert(a@.subrange(0, i + 1) == a@.subrange(0, i as int).push(a@[i as int]));
            assert(b@.subrange(0, i + 1) == b@.subrange(0, i as int).push(b@[i as int]));
        }
        i = i + 1;
    }
    proof {
        assert(a@ == a@.subrange(0, n as int));
        assert(b@ == b@.subrange(0, n as int));
    }
    true
}

/// Maps a host-reported (architecture, OS) pair to a supported platform.
/// Only x86_64 is served, on macOS, Linux and Windows; anything else is
/// refused, the architecture being checked first. Nothing is read or written.
pub fn resolve(arch: &str, os: &str) -> (r: Result<PlatformKey, PlatformError>)
    ensures
        match (r, resolve_spec(arch@, os@)) {
            (Ok(k), Ok(ks)) => k == ks,
            (Err(PlatformError::UnsupportedArch(a)), Err(PlatformError::UnsupportedArch(_))) => a@ == arch@,
            (Err(PlatformError::UnsupportedOs(o)), Err(PlatformError::UnsupportedOs(_))) => o@ == os@,
            _ => false,
        },
{
    if !str_eq(arch, "x86_64") {
        return Err(PlatformError::UnsupportedArch(String::from_str(arch)));
    }
    if str_eq(os, "macos") {
        Ok(PlatformKey { os: Os::MacOs })
    } else if str_eq(os, "linux") {
        Ok(PlatformKey { os: Os::Linux })
    } else if str_eq(os, "windows") {
        Ok(PlatformKey { os: Os::Windows })
    } else {
        Err(PlatformError::UnsupportedOs(String::from_str(os)))
    }
}

/// The archive-name fragment of a platform.
pub fn archive_tag(os: Os) -> (r: &'static str)
    ensures
        r@ == archive_tag_spec(os),
{
    match os {
        Os::MacOs => "mac",
        Os::Linux => "linux",
        Os::Windows => "windows",
    }
}

/// The executable's file name on a platform.
pub fn binary_name(os: Os) -> (r: &'static str)
    ensures
        r@ == binary_name_spec(os),
{
    match os {
        Os::Windows => "clangd.exe",
        _ => "clangd",
    }
}

/// Every architecture other than x86_64 is refused, whatever the OS.
pub proof fn lemma_other_arch_refused(arch: Seq<char>, os: Seq<char>)
    requires
        arch != "x86_64"@,
    ensures
        resolve_spec(arch, os) is Err,
        resolve_spec(arch, os)->Err_0 is UnsupportedArch,
{
}

/// Every OS other than macOS, Linux and Windows is refused.
pub proof fn lemma_other_os_refused(arch: Seq<char>, os: Seq<char>)
    requires
        os != "macos"@,
        os != "linux"@,
        os != "windows"@,
    ensures
        resolve_spec(arch, os) is Err,
{
}

} // verus!
