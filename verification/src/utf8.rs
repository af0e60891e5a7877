//! UTF-8 validity. The listener treats a payload that is not valid text as a
//! fatal contract violation, so validity of a byte sequence is part of the
//! protocol's specification. The definition follows the encoding's shortest
//! -form rules: no overlong encodings, no surrogate code points, nothing
//! above U+10FFFF.

use vstd::prelude::*;

verus! {

/// A continuation byte, `10xxxxxx`.
pub open spec fn is_cont(b: u8) -> bool {
    0x80 <= b && b <= 0xBF
}

/// Length of a well-formed encoded scalar value at the front of `s`,
/// or 0 when the front is not one.
pub open spec fn utf8_step(s: Seq<u8>) -> int {
    if s.len() >= 1 && s[0] <= 0x7F {
        1
    } else if s.len() >= 2 && 0xC2 <= s[0] && s[0] <= 0xDF && is_cont(s[1]) {
        2
    } else if s.len() >= 3 && s[0] == 0xE0 && 0xA0 <= s[1] && s[1] <= 0xBF && is_cont(s[2]) {
        3
    } else if s.len() >= 3 && 0xE1 <= s[0] && s[0] <= 0xEC && is_cont(s[1]) && is_cont(s[2]) {
        3
    } else if s.len() >= 3 && s[0] == 0xED && 0x80 <= s[1] && s[1] <= 0x9F && is_cont(s[2]) {
        3
    } else if s.len() >= 3 && 0xEE <= s[0] && s[0] <= 0xEF && is_cont(s[1]) && is_cont(s[2]) {
        3
    } else if s.len() >= 4 && s[0] == 0xF0 && 0x90 <= s[1] && s[1] <= 0xBF && is_cont(s[2])
        && is_cont(s[3]) {
        4
    } else if s.len() >= 4 && 0xF1 <= s[0] && s[0] <= 0xF3 && is_cont(s[1]) && is_cont(s[2])
        && is_cont(s[3]) {
        4
    } else if s.len() >= 4 && s[0] == 0xF4 && 0x80 <= s[1] && s[1] <= 0x8F && is_cont(s[2])
        && is_cont(s[3]) {
        4
    } else {
        0
    }
}

/// A byte sequence is valid UTF-8 when it splits into well-formed encoded
/// scalar values from the front until nothing is left.
pub open spec fn is_utf8(s: Seq<u8>) -> bool
    decreases s.len(),
{
    if s.len() == 0 {
        true
    } else if utf8_step(s) == 0 {
        false
    } else {
        is_utf8(s.skip(utf8_step(s)))
    }
}

/// Length of the well-formed encoded scalar value starting at `i`, or 0.
fn step_at(bytes: &Vec<u8>, i: usize) -> (k: usize)
    requires
        i < bytes@.len(),
    ensures
        k == utf8_step(bytes@.skip(i as int)),
        k <= bytes@.len() - i,
{
    let ghost tail: Seq<u8> = bytes@.skip(i as int);
    let n = bytes.len();
    let b0 = bytes[i];
    proof {
        assert(tail[0] == bytes@[i as int]);
        assert(tail.len() == n - i);
    }
    if b0 <= 0x7F {
        return 1;
    }
    if 0xC2 <= b0 && b0 <= 0xDF {
        if n - i >= 2 && 0x80 <= bytes[i + 1] && bytes[i + 1] <= 0xBF {
            proof {
                assert(tail[1] == bytes@[i + 1]);
            }
            return 2;
        }
        proof {
            if tail.len() >= 2 {
                assert(tail[1] == bytes@[i + 1]);
            }
        }
        return 0;
    }
    if 0xE0 <= b0 && b0 <= 0xEF {
        if n - i >= 3 {
            let b1 = bytes[i + 1];
            let b2 = bytes[i + 2];
            proof {
                assert(tail[1] == bytes@[i + 1]);
                assert(tail[2] == bytes@[i + 2]);
            }
            let lo: u8 = if b0 == 0xE0 {
                0xA0
            } else if b0 == 0xED {
                0x80
            } else {
                0x80
            };
            let hi: u8 = if b0 == 0xE0 {
                0xBF
            } else if b0 == 0xED {
                0x9F
            } else {
                0xBF
            };
            if lo <= b1 && b1 <= hi && 0x80 <= b2 && b2 <= 0xBF {
                return 3;
            }
            return 0;
        }
        proof {
            if tail.len() >= 2 {
                assert(tail[1] == bytes@[i + 1]);
            }
            if tail.len() >= 3 {
                assert(tail[2] == bytes@[i + 2]);
            }
        }
        return 0;
    }
    if 0xF0 <= b0 && b0 <= 0xF4 {
        if n - i >= 4 {
            let b1 = bytes[i + 1];
            let b2 = bytes[i + 2];
            let b3 = bytes[i + 3];
            proof {
                assert(tail[1] == bytes@[i + 1]);
                assert(tail[2] == bytes@[i + 2]);
                assert(tail[3] == bytes@[i + 3]);
            }
            let lo: u8 = if b0 == 0xF0 {
                0x90
            } else {
                0x80
            };
            let hi: u8 = if b0 == 0xF4 {
                0x8F
            } else {
                0xBF
            };
            if lo <= b1 && b1 <= hi && 0x80 <= b2 && b2 <= 0xBF && 0x80 <= b3 && b3 <= 0xBF {
                return 4;
            }
            return 0;
        }
        proof {
            if tail.len() >= 2 {
                assert(tail[1] == bytes@[i + 1]);
            }
            if tail.len() >= 3 {
                assert(tail[2] == bytes@[i + 2]);
            }
            if tail.len() >= 4 {
                assert(tail[3] == bytes@[i + 3]);
            }
        }
        return 0;
    }
    0
}

/// Decides whether `bytes` is valid UTF-8, the check the listener applies to
/// every payload on the response topic.
pub fn check_utf8(bytes: &Vec<u8>) -> (r: bool)
    ensures
        r == is_utf8(bytes@),
{
    let n = bytes.len();
    let mut i: usize = 0;
    proof {
        assert(bytes@.skip(0) =~= bytes@);
    }
    loop
        invariant
            i <= n,
            n == bytes@.len(),
            is_utf8(bytes@) == is_utf8(bytes@.skip(i as int)),
        decreases n - i,
    {
        if i == n {
            proof {
                assert(bytes@.skip(i as int) =~= Seq::<u8>::empty());
            }
            return true;
        }
        let k = step_at(bytes, i);
        if k == 0 {
            return false;
        }
        proof {
            assert(bytes@.skip(i as int).skip(k as int) =~= bytes@.skip(i + k));
        }
        i = i + k;
    }
}

} // verus!
