//! Plain-value remnants of the OS helper layer: executable names from
//! process image paths, and monitor names from UTF-16 device-name buffers.

use vstd::prelude::*;
use vstd::string::StrSliceExecFns;

verus! {

/// Everything after the last backslash of a path, or the whole path when
/// it has none.
pub open spec fn spec_after_last_backslash(s: Seq<char>) -> Seq<char>
    decreases s.len(),
{
    if s.len() == 0 {
        s
    } else if s.last() == '\\' {
        Seq::empty()
    } else {
        spec_after_last_backslash(s.drop_last()).push(s.last())
    }
}

proof fn lemma_albs_no_backslash(s: Seq<char>)
    requires
        forall|t: int| 0 <= t < s.len() ==> s[t] != '\\',
    ensures
        spec_after_last_backslash(s) == s,
    decreases s.len(),
{
    if s.len() > 0 {
        lemma_albs_no_backslash(s.drop_last());
        assert(spec_after_last_backslash(s.drop_last()).push(s.last()) =~= s);
    }
}

proof fn lemma_albs_found(s: Seq<char>, k: int)
    requires
        0 <= k < s.len(),
        s[k] == '\\',
        forall|t: int| k < t < s.len() ==> s[t] != '\\',
    ensures
        spec_after_last_backslash(s) == s.skip(k + 1),
    decreases s.len(),
{
    if k == s.len() - 1 {
        assert(s.skip(k + 1) =~= Seq::<char>::empty());
    } else {
        lemma_albs_found(s.drop_last(), k);
        assert(s.drop_last().skip(k + 1).push(s.last()) =~= s.skip(k + 1));
    }
}

/// One past the index of the last backslash, or zero when there is none.
fn last_backslash_end(s: &str) -> (k: usize)
    ensures
        k <= s@.len(),
        forall|t: int| k <= t < s@.len() ==> s@[t] != '\\',
        k > 0 ==> s@[k - 1] == '\\',
{
    let n = s.unicode_len();
    let mut i: usize = 0;
    let mut k: usize = 0;
    while i < n
        invariant
            i <= n,
            k <= i,
            n == s@.len(),
            k > 0 ==> s@[k - 1] == '\\',
            forall|t: int| k <= t < i ==> s@[t] != '\\',
        decreases n - i,
    {
        if s.get_char(i) == '\\' {
            k = i + 1;
        }
        i = i + 1;
    }
    k
}

/// The executable's file name: the path's final backslash-separated
/// segment.
pub fn get_exe_name_from_path(path: String) -> (r: Option<String>)
    ensures
        r is Some,
        r->0@ == spec_after_last_backslash(path@),
{
    let k = last_backslash_end(path.as_str());
    if k == 0 {
        proof {
            lemma_albs_no_backslash(path@);
        }
        Some(path)
    } else {
        let n = path.as_str().unicode_len();
        let tail = path.as_str().substring_char(k, n).to_owned();
        proof {
            lemma_albs_found(path@, k - 1);
            assert(path@.subrange(k as int, n as int) =~= path@.skip(k as int));
        }
        Some(tail)
    }
}

pub open spec fn spec_trim_nul_start(s: Seq<char>) -> Seq<char>
    decreases s.len(),
{
    if s.len() == 0 {
        s
    } else if s[0] == '\0' {
        spec_trim_nul_start(s.skip(1))
    } else {
        s
    }
}

pub open spec fn spec_trim_nul_end(s: Seq<char>) -> Seq<char>
    decreases s.len(),
{
    if s.len() == 0 {
        s
    } else if s.last() == '\0' {
        spec_trim_nul_end(s.drop_last())
    } else {
        s
    }
}

/// The characters with every leading and trailing NUL removed, as OS
/// fixed-size name buffers are padded with NULs.
pub open spec fn spec_trim_nul(s: Seq<char>) -> Seq<char> {
    spec_trim_nul_end(spec_trim_nul_start(s))
}

pub fn trim_nul(s: &str) -> (r: String)
    ensures
        r@ == spec_trim_nul(s@),
{
    let n = s.unicode_len();
    let mut a: usize = 0;
    proof {
        assert(s@.skip(0) =~= s@);
    }
    while a < n && s.get_char(a) == '\0'
        invariant
            a <= n,
            n == s@.len(),
            spec_trim_nul_start(s@) == spec_trim_nul_start(s@.skip(a as int)),
        decreases n - a,
    {
        proof {
            assert(s@.skip(a as int)[0] == s@[a as int]);
            assert(s@.skip(a as int).skip(1) =~= s@.skip(a + 1));
        }
        a = a + 1;
    }
    proof {
        if a < n {
            assert(s@.skip(a as int)[0] == s@[a as int]);
        }
        assert(spec_trim_nul_start(s@) == s@.skip(a as int));
    }
    let ghost trimmed = s@.skip(a as int);
    let mut b: usize = n;
    proof {
        assert(trimmed.take(n - a as int) =~= trimmed);
    }
    while b > a && s.get_char(b - 1) == '\0'
        invariant
            a <= b <= n,
            n == s@.len(),
            trimmed == s@.skip(a as int),
            spec_trim_nul_end(trimmed) == spec_trim_nul_end(trimmed.take(b - a as int)),
        decreases b,
    {
        proof {
            let part = trimmed.take(b - a as int);
            assert(part.last() == s@[b - 1]);
            assert(part.drop_last() =~= trimmed.take(b - 1 - a as int));
        }
        b = b - 1;
    }
    proof {
        let part = trimmed.take(b - a as int);
        if b > a {
            assert(part.last() == s@[b - 1]);
        }
        assert(spec_trim_nul_end(part) == part);
    }
    let r = s.substring_char(a, b).to_owned();
    proof {
        assert(s@.subrange(a as int, b as int) =~= trimmed.take(b - a as int));
    }
    r
}

/// What `String::from_utf16` decodes a well-formed UTF-16 buffer to; a
/// function of the code units alone.
pub uninterp spec fn decoded_utf16_of(units: Seq<u16>) -> Seq<char>;

/// Relies on `String::from_utf16`: decodes UTF-16 code units, or nothing
/// where the buffer holds invalid data.
#[verifier::external_body]
fn decode_utf16(units: &Vec<u16>) -> (r: Option<String>)
    ensures
        r is Some ==> r->0@ == decoded_utf16_of(units@),
{
    String::from_utf16(units.as_slice()).ok()
}

/// The display's name from its fixed-size UTF-16 device-name buffer:
/// decoded and stripped of NUL padding, or nothing when the buffer is not
/// valid UTF-16.
pub fn get_monitor_name(device_name: &Vec<u16>) -> (r: Option<String>)
    ensures
        r is Some ==> r->0@ == spec_trim_nul(decoded_utf16_of(device_name@)),
{
    match decode_utf16(device_name) {
        Option::Some(s) => Some(trim_nul(s.as_str())),
        Option::None => None,
    }
}

} // verus!
