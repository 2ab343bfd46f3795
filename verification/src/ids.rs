//! Opaque 128-bit identifiers for jobs, environments and boards, with
//! their canonical hyphenated text form and the hostname rule derived
//! from it.

use vstd::prelude::*;

verus! {

/// An opaque 128-bit universally unique identifier.
///
/// Jobs, environments and boards are all named by values of this type.
/// Its canonical text form is the usual hyphenated lowercase hex
/// rendering, 36 characters long.
#[derive(Clone, Copy, Debug, PartialEq, Eq, Structural, Hash)]
pub struct Uuid {
    pub bits: u128,
}

/// The lowercase hex digit for a value below 16.
pub open spec fn hex_digit_char(v: int) -> char {
    if v == 0 {
        '0'
    } else if v == 1 {
        '1'
    } else if v == 2 {
        '2'
    } else if v == 3 {
        '3'
    } else if v == 4 {
        '4'
    } else if v == 5 {
        '5'
    } else if v == 6 {
        '6'
    } else if v == 7 {
        '7'
    } else if v == 8 {
        '8'
    } else if v == 9 {
        '9'
    } else if v == 10 {
        'a'
    } else if v == 11 {
        'b'
    } else if v == 12 {
        'c'
    } else if v == 13 {
        'd'
    } else if v == 14 {
        'e'
    } else {
        'f'
    }
}

/// The i-th nibble of a 128-bit value, counted from the most
/// significant end.
pub open spec fn nibble_of(bits: u128, i: int) -> u128 {
    (bits >> ((4 * (31 - i)) as u128)) & 0xf
}

/// Which nibble the canonical text shows at position p (positions
/// 8, 13, 18 and 23 hold hyphens and have no nibble).
pub open spec fn nibble_index(p: int) -> int {
    if p < 8 {
        p
    } else if p < 13 {
        p - 1
    } else if p < 18 {
        p - 2
    } else if p < 23 {
        p - 3
    } else {
        p - 4
    }
}

/// The character at position p of the canonical text.
pub open spec fn uuid_char_at(bits: u128, p: int) -> char {
    if p == 8 || p == 13 || p == 18 || p == 23 {
        '-'
    } else {
        hex_digit_char(nibble_of(bits, nibble_index(p)) as int)
    }
}

/// The canonical hyphenated lowercase hex text of an identifier:
/// 8-4-4-4-12 hex digits, 36 characters in all.
pub open spec fn uuid_chars(bits: u128) -> Seq<char> {
    Seq::new(36, |p: int| uuid_char_at(bits, p))
}

/// The hostname handed to a job's container: `"job-"` followed by the
/// first 10 characters of the job id's canonical text.
pub open spec fn hostname_chars(bits: u128) -> Seq<char> {
    "job-"@ + uuid_chars(bits).take(10)
}

/// A one-character string holding the lowercase hex digit for v.
pub(crate) fn hex_digit_str(v: u8) -> (s: &'static str)
    requires
        v < 16,
    ensures
        s@ == seq![hex_digit_char(v as int)],
{
    proof {
        reveal_strlit("0");
        reveal_strlit("1");
        reveal_strlit("2");
        reveal_strlit("3");
        reveal_strlit("4");
        reveal_strlit("5");
        reveal_strlit("6");
        reveal_strlit("7");
        reveal_strlit("8");
        reveal_strlit("9");
        reveal_strlit("a");
        reveal_strlit("b");
        reveal_strlit("c");
        reveal_strlit("d");
        reveal_strlit("e");
        reveal_strlit("f");
    }
    match v {
        0 => "0",
        1 => "1",
        2 => "2",
        3 => "3",
        4 => "4",
        5 => "5",
        6 => "6",
        7 => "7",
        8 => "8",
        9 => "9",
        10 => "a",
        11 => "b",
        12 => "c",
        13 => "d",
        14 => "e",
        _ => "f",
    }
}

impl Uuid {
    /// The canonical hyphenated lowercase hex text of this identifier.
    pub fn canonical_text(&self) -> (s: String)
        ensures
            s@ == uuid_chars(self.bits),
    {
        let mut s = String::new();
        let mut p: usize = 0;
        while p < 36
            invariant
                p <= 36,
                s@ == uuid_chars(self.bits).take(p as int),
            decreases 36 - p,
        {
            if p == 8 || p == 13 || p == 18 || p == 23 {
                proof {
                    reveal_strlit("-");
                }
                s.append("-");
            } else {
                let idx: u128 = if p < 8 {
                    p as u128
                } else if p < 13 {
                    (p - 1) as u128
                } else if p < 18 {
                    (p - 2) as u128
                } else if p < 23 {
                    (p - 3) as u128
                } else {
                    (p - 4) as u128
                };
                let sh: u128 = 4 * (31 - idx);
                let nib: u8 = ((self.bits >> sh) & 0xf) as u8;
                proof {
                    let b = self.bits;
                    assert((b >> sh) & 0xf < 16) by (bit_vector);
                    assert(idx == nibble_index(p as int));
                    assert(nib as u128 == nibble_of(self.bits, idx as int));
                }
                s.append(hex_digit_str(nib));
            }
            proof {
                assert(s@ =~= uuid_chars(self.bits).take(p + 1));
            }
            p = p + 1;
        }
        proof {
            assert(s@ =~= uuid_chars(self.bits));
        }
        s
    }
}

/// The hostname for a job: `"job-"` plus the first 10 characters of
/// the job id's canonical text.
pub fn hostname_for(job_id: &Uuid) -> (s: String)
    ensures
        s@ == hostname_chars(job_id.bits),
{
    let text = job_id.canonical_text();
    let mut s = String::new();
    proof {
        reveal_strlit("job-");
    }
    s.append("job-");
    let head = text.as_str().substring_char(0, 10);
    s.append(head);
    proof {
        assert(s@ =~= hostname_chars(job_id.bits));
    }
    s
}

} // verus!
