use vstd::prelude::*;
use crate::text::same_text;

verus! {

/// The registry's platform key for a native architecture name, as the Rust
/// toolchain spells it (`x86_64`, `aarch64`, ...). Lookup is exact: a name
/// outside this table has no key.
pub open spec fn platform_key_of(native: Seq<char>) -> Option<Seq<char>> {
    if native == "x86_64"@ {
        Some("amd64"@)
    } else if native == "aarch64"@ {
        Some("arm64v8"@)
    } else if native == "arm"@ {
        Some("arm32v7"@)
    } else if native == "i686"@ || native == "i386"@ {
        Some("386"@)
    } else if native == "ppc64"@ || native == "ppc64le"@ {
        Some("ppc64le"@)
    } else if native == "riscv64"@ {
        Some("riscv64"@)
    } else if native == "s390x"@ {
        Some("s390x"@)
    } else {
        None
    }
}

fn key(k: &str) -> (r: Option<String>)
    ensures
        r matches Some(s) && s@ == k@,
{
    Some(String::from_str(k))
}

/// Maps a native architecture name to the registry's platform key.
pub fn platform_key(native: &str) -> (r: Option<String>)
    ensures
        r matches Some(k) ==> platform_key_of(native@) == Some(k@),
        r is None ==> platform_key_of(native@) is None,
{
    if same_text(native, "x86_64") {
        key("amd64")
    } else if same_text(native, "aarch64") {
        key("arm64v8")
    } else if same_text(native, "arm") {
        key("arm32v7")
    } else if same_text(native, "i686") || same_text(native, "i386") {
        key("386")
    } else if same_text(native, "ppc64") || same_text(native, "ppc64le") {
        key("ppc64le")
    } else if same_text(native, "riscv64") {
        key("riscv64")
    } else if same_text(native, "s390x") {
        key("s390x")
    } else {
        None
    }
}

} // verus!
