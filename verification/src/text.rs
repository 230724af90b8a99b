//! Well-formed UTF-8, and a checker for it.
//!
//! The request head is only parsed when it is text; this module decides that.
//! Well-formedness follows the shortest-form encoding: continuation bytes are
//! `0x80..=0xBF`, overlong encodings, surrogate code points and values above
//! `0x10FFFF` are rejected.

use vstd::prelude::*;

verus! {

/// A UTF-8 continuation byte, `0x80..=0xBF`.
pub open spec fn is_continuation(b: u8) -> bool {
    0x80 <= b <= 0xBF
}

/// The length of the well-formed UTF-8 encoding that starts at `s[i]`,
/// or 0 when no well-formed encoding starts there.
pub open spec fn encoded_len_at(s: Seq<u8>, i: int) -> int
    recommends
        0 <= i < s.len(),
{
    let b0 = s[i];
    if b0 < 0x80 {
        1
    } else if 0xC2 <= b0 <= 0xDF {
        if i + 2 <= s.len() && is_continuation(s[i + 1]) {
            2
        } else {
            0
        }
    } else if b0 == 0xE0 {
        if i + 3 <= s.len() && 0xA0 <= s[i + 1] <= 0xBF && is_continuation(s[i + 2]) {
            3
        } else {
            0
        }
    } else if 0xE1 <= b0 <= 0xEC || b0 == 0xEE || b0 == 0xEF {
        if i + 3 <= s.len() && is_continuation(s[i + 1]) && is_continuation(s[i + 2]) {
            3
        } else {
            0
        }
    } else if b0 == 0xED {
        if i + 3 <= s.len() && 0x80 <= s[i + 1] <= 0x9F && is_continuation(s[i + 2]) {
            3
        } else {
            0
        }
    } else if b0 == 0xF0 {
        if i + 4 <= s.len() && 0x90 <= s[i + 1] <= 0xBF && is_continuation(s[i + 2])
            && is_continuation(s[i + 3]) {
            4
        } else {
            0
        }
    } else if 0xF1 <= b0 <= 0xF3 {
        if i + 4 <= s.len() && is_continuation(s[i + 1]) && is_continuation(s[i + 2])
            && is_continuation(s[i + 3]) {
            4
        } else {
            0
        }
    } else if b0 == 0xF4 {
        if i + 4 <= s.len() && 0x80 <= s[i + 1] <= 0x8F && is_continuation(s[i + 2])
            && is_continuation(s[i + 3]) {
            4
        } else {
            0
        }
    } else {
        0
    }
}

/// The bytes of `s` from position `i` on are a sequence of well-formed
/// UTF-8 encodings.
pub open spec fn utf8_from(s: Seq<u8>, i: int) -> bool
    recommends
        0 <= i <= s.len(),
    decreases s.len() - i,
{
    if i >= s.len() {
        true
    } else if encoded_len_at(s, i) > 0 {
        utf8_from(s, i + encoded_len_at(s, i))
    } else {
        false
    }
}

/// `s` is well-formed UTF-8 text.
pub open spec fn is_utf8(s: Seq<u8>) -> bool {
    utf8_from(s, 0)
}

proof fn lemma_utf8_from_ascii(s: Seq<u8>, i: int)
    requires
        0 <= i <= s.len(),
        forall|k: int| 0 <= k < s.len() ==> s[k] < 0x80,
    ensures
        utf8_from(s, i),
    decreases s.len() - i,
{
    if i < s.len() {
        assert(encoded_len_at(s, i) == 1);
        lemma_utf8_from_ascii(s, i + 1);
    }
}

/// A sequence of ASCII bytes is text.
pub proof fn lemma_ascii_is_utf8(s: Seq<u8>)
    requires
        forall|k: int| 0 <= k < s.len() ==> s[k] < 0x80,
    ensures
        is_utf8(s),
{
    lemma_utf8_from_ascii(s, 0);
}

proof fn lemma_utf8_from_shift(a: Seq<u8>, b: Seq<u8>, j: int)
    requires
        0 <= j <= b.len(),
    ensures
        utf8_from(a + b, a.len() + j) == utf8_from(b, j),
    decreases b.len() - j,
{
    let s = a + b;
    assert(s.len() == a.len() + b.len());
    assert(forall|t: int| 0 <= t < b.len() ==> s[a.len() + t] == b[t]);
    if j < b.len() {
        assert(encoded_len_at(s, a.len() + j) == encoded_len_at(b, j));
        let k = encoded_len_at(b, j);
        if k > 0 {
            assert(j + k <= b.len());
            lemma_utf8_from_shift(a, b, j + k);
        }
    }
}

proof fn lemma_utf8_from_concat(a: Seq<u8>, b: Seq<u8>, i: int)
    requires
        0 <= i <= a.len(),
        utf8_from(a, i),
        is_utf8(b),
    ensures
        utf8_from(a + b, i),
    decreases a.len() - i,
{
    let s = a + b;
    if i == a.len() {
        lemma_utf8_from_shift(a, b, 0);
    } else {
        assert(forall|t: int| 0 <= t < a.len() ==> s[t] == a[t]);
        let k = encoded_len_at(a, i);
        assert(k > 0 && i + k <= a.len());
        assert(encoded_len_at(s, i) == k);
        lemma_utf8_from_concat(a, b, i + k);
    }
}

/// Text followed by text is text.
pub proof fn lemma_utf8_concat(a: Seq<u8>, b: Seq<u8>)
    requires
        is_utf8(a),
        is_utf8(b),
    ensures
        is_utf8(a + b),
{
    lemma_utf8_from_concat(a, b, 0);
}

/// Decides whether the byte slice is well-formed UTF-8 text.
pub fn check_utf8(s: &[u8]) -> (ok: bool)
    ensures
        ok == is_utf8(s@),
{
    let n = s.len();
    let mut i: usize = 0;
    while i < n
        invariant
            0 <= i <= n,
            n == s@.len(),
            is_utf8(s@) == utf8_from(s@, i as int),
        decreases n - i,
    {
        let b0 = s[i];
        let step: usize;
        if b0 < 0x80 {
            step = 1;
        } else if 0xC2 <= b0 && b0 <= 0xDF {
            if n - i >= 2 && 0x80 <= s[i + 1] && s[i + 1] <= 0xBF {
                step = 2;
            } else {
                return false;
            }
        } else if b0 == 0xE0 {
            if n - i >= 3 && 0xA0 <= s[i + 1] && s[i + 1] <= 0xBF && 0x80 <= s[i + 2]
                && s[i + 2] <= 0xBF {
                step = 3;
            } else {
                return false;
            }
        } else if (0xE1 <= b0 && b0 <= 0xEC) || b0 == 0xEE || b0 == 0xEF {
            if n - i >= 3 && 0x80 <= s[i + 1] && s[i + 1] <= 0xBF && 0x80 <= s[i + 2]
                && s[i + 2] <= 0xBF {
                step = 3;
            } else {
                return false;
            }
        } else if b0 == 0xED {
            if n - i >= 3 && 0x80 <= s[i + 1] && s[i + 1] <= 0x9F && 0x80 <= s[i + 2]
                && s[i + 2] <= 0xBF {
                step = 3;
            } else {
                return false;
            }
        } else if b0 == 0xF0 {
            if n - i >= 4 && 0x90 <= s[i + 1] && s[i + 1] <= 0xBF && 0x80 <= s[i + 2]
                && s[i + 2] <= 0xBF && 0x80 <= s[i + 3] && s[i + 3] <= 0xBF {
                step = 4;
            } else {
                return false;
            }
        } else if 0xF1 <= b0 && b0 <= 0xF3 {
            if n - i >= 4 && 0x80 <= s[i + 1] && s[i + 1] <= 0xBF && 0x80 <= s[i + 2]
                && s[i + 2] <= 0xBF && 0x80 <= s[i + 3] && s[i + 3] <= 0xBF {
                step = 4;
            } else {
                return false;
            }
        } else if b0 == 0xF4 {
            if n - i >= 4 && 0x80 <= s[i + 1] && s[i + 1] <= 0x8F && 0x80 <= s[i + 2]
                && s[i + 2] <= 0xBF && 0x80 <= s[i + 3] && s[i + 3] <= 0xBF {
                step = 4;
            } else {
                return false;
            }
        } else {
            return false;
        }
        proof {
            assert(encoded_len_at(s@, i as int) == step);
            assert(utf8_from(s@, i as int) == utf8_from(s@, i as int + step));
        }
        i = i + step;
    }
    true
}

} // verus!
