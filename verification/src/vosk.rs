//! The recogniser library's release archive: where it is fetched from when no library
//! is found next to the model, and which of its files are unpacked.

use vstd::prelude::*;
use crate::text::{ascii_lower_char, chars_of, lowercase, to_lowercase};

verus! {

/// The release of the recogniser library that is fetched when none is found.
pub const VOSK_RELEASE_TAG: &'static str = "v0.3.45";

/// The archive of that release with the Windows library.
pub const VOSK_ASSET: &'static str = "vosk-win64-0.3.45.zip";

/// `s` ends with `suffix`.
pub open spec fn ends_with(s: Seq<char>, suffix: Seq<char>) -> bool {
    suffix.len() <= s.len() && s.skip(s.len() - suffix.len()) == suffix
}

/// The ASCII lower-case form of every character of `s`.
pub open spec fn ascii_lower(s: Seq<char>) -> Seq<char> {
    s.map_values(|c: char| ascii_lower_char(c))
}

/// The download address of the recogniser's release archive.
pub fn vosk_download_url() -> (r: String)
    ensures
        r@ == "https://github.com/alphacep/vosk-api/releases/download/"@ + VOSK_RELEASE_TAG@ + "/"@
            + VOSK_ASSET@,
{
    let mut r = String::from_str("https://github.com/alphacep/vosk-api/releases/download/");
    r.append(VOSK_RELEASE_TAG);
    r.append("/");
    r.append(VOSK_ASSET);
    r
}

fn ends_with_chars(s: &[char], suffix: &[char]) -> (r: bool)
    ensures
        r == ends_with(s@, suffix@),
{
    if suffix.len() > s.len() {
        return false;
    }
    let off = s.len() - suffix.len();
    let mut i: usize = 0;
    while i < suffix.len()
        invariant
            off + suffix.len() == s.len(),
            i <= suffix.len(),
            forall|k: int| 0 <= k < i ==> s@[off + k] == suffix@[k],
        decreases suffix.len() - i,
    {
        if s[off + i] != suffix[i] {
            assert(s@.skip(off as int)[i as int] != suffix@[i as int]);
            return false;
        }
        i = i + 1;
    }
    assert(s@.skip(off as int) =~= suffix@);
    true
}

/// An archive entry is unpacked when its name, lower-cased, ends with ".dll".
pub fn is_dll_entry(name: &str) -> (r: bool)
    ensures
        r == ends_with(lowercase(name@), ".dll"@),
{
    let lower = to_lowercase(name);
    let lv = chars_of(lower.as_str());
    let dll = chars_of(".dll");
    ends_with_chars(lv.as_slice(), dll.as_slice())
}

fn ascii_ci_char_eq(a: char, t: char) -> (r: bool)
    requires
        !(65 <= (t as int) <= 90),
    ensures
        r == (ascii_lower_char(a) == t),
{
    let au = a as u32;
    let tu = t as u32;
    au == tu || (65 <= au && au <= 90 && au + 32 == tu)
}

fn ascii_ci_eq(a: &[char], t: &[char]) -> (r: bool)
    requires
        forall|k: int| 0 <= k < t@.len() ==> !(65 <= (#[trigger] t@[k] as int) <= 90),
    ensures
        r == (ascii_lower(a@) == t@),
{
    if a.len() != t.len() {
        assert(ascii_lower(a@).len() != t@.len());
        return false;
    }
    let mut i: usize = 0;
    while i < a.len()
        invariant
            a.len() == t.len(),
            i <= a.len(),
            forall|k: int| 0 <= k < t@.len() ==> !(65 <= (#[trigger] t@[k] as int) <= 90),
            forall|k: int| 0 <= k < i ==> ascii_lower_char(#[trigger] a@[k]) == t@[k],
        decreases a.len() - i,
    {
        if !ascii_ci_char_eq(a[i], t[i]) {
            assert(ascii_lower(a@)[i as int] != t@[i as int]);
            return false;
        }
        i = i + 1;
    }
    assert(ascii_lower(a@) =~= t@);
    true
}

/// Whether an unpacked file is the recogniser library itself: "vosk.dll" or
/// "libvosk.dll", with ASCII letters compared regardless of case.
pub fn is_vosk_library(file_name: &str) -> (r: bool)
    ensures
        r == (ascii_lower(file_name@) == "vosk.dll"@ || ascii_lower(file_name@) == "libvosk.dll"@),
{
    let f = chars_of(file_name);
    let a = chars_of("vosk.dll");
    let b = chars_of("libvosk.dll");
    proof {
        reveal_strlit("vosk.dll");
        reveal_strlit("libvosk.dll");
    }
    ascii_ci_eq(f.as_slice(), a.as_slice()) || ascii_ci_eq(f.as_slice(), b.as_slice())
}

} // verus!
