//! Byte-level text helpers: substring search and C strings.

use vstd::prelude::*;
use vstd::string::StringSliceAdditionalSpecFns;

verus! {

/// `needle` occurs in `haystack` at byte offset `i`.
pub open spec fn occurs_at(haystack: Seq<u8>, needle: Seq<u8>, i: int) -> bool {
    &&& 0 <= i
    &&& i + needle.len() <= haystack.len()
    &&& haystack.subrange(i, i + needle.len()) == needle
}

/// `needle` occurs somewhere in `haystack`.
pub open spec fn bytes_contain(haystack: Seq<u8>, needle: Seq<u8>) -> bool {
    exists|i: int| occurs_at(haystack, needle, i)
}

/// Whether the text `needle` occurs in the text `haystack` (as `str::contains`
/// with a string pattern: UTF-8 is self-synchronising, so a byte match of a
/// whole string is a match of its characters).
pub fn str_contains(haystack: &str, needle: &str) -> (r: bool)
    ensures
        r == bytes_contain(haystack.spec_bytes(), needle.spec_bytes()),
{
    let h = haystack.as_bytes();
    let n = needle.as_bytes();
    let hl = h.len();
    let nl = n.len();
    if nl > hl {
        proof {
            assert forall|i: int| !occurs_at(h@, n@, i) by {}
        }
        return false;
    }
    let mut i: usize = 0;
    while i <= hl - nl
        invariant
            h@ == haystack.spec_bytes(),
            n@ == needle.spec_bytes(),
            hl == h@.len(),
            nl == n@.len(),
            nl <= hl,
            i <= hl - nl + 1,
            forall|k: int| 0 <= k < i ==> !occurs_at(h@, n@, k),
        decreases hl - nl + 1 - i,
    {
        let mut j: usize = 0;
        let mut matched = true;
        while j < nl
            invariant
                h@ == haystack.spec_bytes(),
                n@ == needle.spec_bytes(),
                hl == h@.len(),
                nl == n@.len(),
                i + nl <= hl,
                j <= nl,
                matched == (forall|k: int| 0 <= k < j ==> h@[i + k] == n@[k]),
            decreases nl - j,
        {
            if h[i + j] != n[j] {
                matched = false;
            }
            j = j + 1;
        }
        if matched {
            proof {
                assert(h@.subrange(i as int, i + nl) =~= n@);
                assert(occurs_at(h@, n@, i as int));
            }
            return true;
        }
        proof {
            assert(!occurs_at(h@, n@, i as int)) by {
                if h@.subrange(i as int, i + nl) == n@ {
                    assert forall|k: int| 0 <= k < nl implies h@[i + k] == n@[k] by {
                        assert(h@.subrange(i as int, i + nl)[k] == h@[i + k]);
                    }
                }
            }
        }
        i = i + 1;
    }
    proof {
        assert forall|k: int| !occurs_at(h@, n@, k) by {
            if 0 <= k && k + nl <= hl {
                assert(k < i);
            }
        }
    }
    false
}

/// The bytes of a C string holding `s`: its UTF-8 bytes and a terminating NUL.
pub open spec fn c_string(s: Seq<u8>) -> Seq<u8> {
    s.push(0u8)
}

/// Copies `s` into a NUL-terminated byte buffer.
pub fn c_string_bytes(s: &str) -> (r: Vec<u8>)
    ensures
        r@ == c_string(s.spec_bytes()),
{
    let b = s.as_bytes();
    let mut r: Vec<u8> = Vec::new();
    let mut i: usize = 0;
    while i < b.len()
        invariant
            b@ == s.spec_bytes(),
            i <= b@.len(),
            r@ == b@.take(i as int),
        decreases b@.len() - i,
    {
        r.push(b[i]);
        i = i + 1;
        proof {
            assert(r@ =~= b@.take(i as int));
        }
    }
    r.push(0u8);
    proof {
        assert(b@.take(b@.len() as int) =~= b@);
    }
    r
}

/// Like `CString::new`: the C string of `s`, or none when `s` holds a NUL byte.
pub fn c_string_checked(s: &str) -> (r: Option<Vec<u8>>)
    ensures
        r is None <==> s.spec_bytes().contains(0u8),
        r matches Some(v) ==> v@ == c_string(s.spec_bytes()),
{
    let b = s.as_bytes();
    let mut i: usize = 0;
    while i < b.len()
        invariant
            b@ == s.spec_bytes(),
            i <= b@.len(),
            forall|k: int| 0 <= k < i ==> b@[k] != 0u8,
        decreases b@.len() - i,
    {
        if b[i] == 0u8 {
            return None;
        }
        i = i + 1;
    }
    Some(c_string_bytes(s))
}

} // verus!
