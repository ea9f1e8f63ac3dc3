//! The raw-value codec: typed values parsed from an element's on-wire
//! bytes. Decimal strings are read into fixed-point thousandths, the
//! unit every geometric quantity in the core is stated in.

use vstd::prelude::*;

use crate::bytes::{u16_at, u32_at};
use crate::element::DicomElement;

verus! {

/// Scans an unsigned decimal over the digits and at most one point,
/// keeping at most three fraction digits: the running value, the number
/// of fraction digits kept, and whether a digit was seen. Any other
/// character, a second point, or a value over 10^15 scans to `None`.
pub open spec fn spec_dec_scan(
    s: Seq<u8>,
    acc: int,
    in_frac: bool,
    frac_n: int,
    seen: bool,
) -> Option<(int, int)>
    decreases s.len(),
{
    if s.len() == 0 {
        if seen {
            Some((acc, frac_n))
        } else {
            None
        }
    } else {
        let c = s[0];
        if c == 0x2E {
            if in_frac {
                None
            } else {
                spec_dec_scan(s.drop_first(), acc, true, frac_n, seen)
            }
        } else if 0x30 <= c <= 0x39 {
            if in_frac && frac_n >= 3 {
                spec_dec_scan(s.drop_first(), acc, in_frac, frac_n, true)
            } else {
                let acc2 = acc * 10 + (c - 0x30);
                if acc2 > 0x38D7_EA4C_6800_0 {
                    None
                } else {
                    spec_dec_scan(
                        s.drop_first(),
                        acc2,
                        in_frac,
                        if in_frac {
                            frac_n + 1
                        } else {
                            frac_n
                        },
                        true,
                    )
                }
            }
        } else {
            None
        }
    }
}

/// The factor that brings a value with `frac_n` kept fraction digits to
/// thousandths.
pub open spec fn spec_frac_scale(frac_n: int) -> int {
    if frac_n <= 0 {
        1000
    } else if frac_n == 1 {
        100
    } else if frac_n == 2 {
        10
    } else {
        1
    }
}

/// Whether a decimal string begins with a minus sign.
pub open spec fn spec_ds_neg(s: Seq<u8>) -> bool {
    s.len() > 0 && s[0] == 0x2D
}

/// The digits of a decimal string: everything after a leading sign.
pub open spec fn spec_ds_body(s: Seq<u8>) -> Seq<u8> {
    if s.len() > 0 && (s[0] == 0x2D || s[0] == 0x2B) {
        s.drop_first()
    } else {
        s
    }
}

/// The value of a decimal string in thousandths, truncated toward zero
/// past the third fraction digit; `None` for anything that is not a
/// plain signed decimal.
pub open spec fn spec_ds_millis(s: Seq<u8>) -> Option<i64> {
    let neg = spec_ds_neg(s);
    match spec_dec_scan(spec_ds_body(s), 0, false, 0, false) {
        None => None,
        Some((acc, frac_n)) => {
            let m = acc * spec_frac_scale(frac_n);
            if neg {
                Some((-m) as i64)
            } else {
                Some(m as i64)
            }
        },
    }
}

/// Reads a decimal string as fixed-point thousandths.
pub fn parse_ds_millis(s: &[u8]) -> (r: Option<i64>)
    ensures
        r == spec_ds_millis(s@),
{
    let n: usize = s.len();
    let mut i: usize = 0;
    let mut neg: bool = false;
    if n > 0 && (s[0] == 0x2D || s[0] == 0x2B) {
        neg = s[0] == 0x2D;
        i = 1;
    }
    assert(spec_ds_body(s@) =~= s@.subrange(i as int, n as int));

    let mut acc: i64 = 0;
    let mut in_frac: bool = false;
    let mut frac_n: u32 = 0;
    let mut seen: bool = false;
    while i < n
        invariant
            0 <= i <= n,
            n == s@.len(),
            0 <= acc <= 0x38D7_EA4C_6800_0,
            0 <= frac_n <= 3,
            spec_dec_scan(spec_ds_body(s@), 0, false, 0, false) == spec_dec_scan(
                s@.subrange(i as int, n as int),
                acc as int,
                in_frac,
                frac_n as int,
                seen,
            ),
        decreases n - i,
    {
        let ghost rest = s@.subrange(i as int, n as int);
        assert(rest.drop_first() =~= s@.subrange(i + 1, n as int));
        let c: u8 = s[i];
        if c == 0x2E {
            if in_frac {
                assert(spec_dec_scan(rest, acc as int, true, frac_n as int, seen) is None);
                return None;
            }
            in_frac = true;
        } else if 0x30 <= c && c <= 0x39 {
            if in_frac && frac_n >= 3 {
                // Truncate past the third fraction digit.
                seen = true;
            } else {
                let d: i64 = (c - 0x30) as i64;
                let acc2: i64 = acc * 10 + d;
                if acc2 > 0x38D7_EA4C_6800_0 {
                    assert(spec_dec_scan(rest, acc as int, in_frac, frac_n as int, seen) is None);
                    return None;
                }
                acc = acc2;
                if in_frac {
                    frac_n = frac_n + 1;
                }
                seen = true;
            }
        } else {
            assert(spec_dec_scan(rest, acc as int, in_frac, frac_n as int, seen) is None);
            return None;
        }
        i = i + 1;
    }
    assert(s@.subrange(n as int, n as int) =~= Seq::<u8>::empty());
    if !seen {
        assert(spec_dec_scan(Seq::<u8>::empty(), acc as int, in_frac, frac_n as int, false)
            is None);
        return None;
    }
    let m: i64 = if frac_n == 0 {
        acc * 1000
    } else if frac_n == 1 {
        acc * 100
    } else if frac_n == 2 {
        acc * 10
    } else {
        acc
    };
    if neg {
        Some(-m)
    } else {
        Some(m)
    }
}

/// Splits a string on a separator byte, the running token carried
/// through the scan.
pub open spec fn spec_split_acc(s: Seq<u8>, sep: u8, cur: Seq<u8>) -> Seq<Seq<u8>>
    decreases s.len(),
{
    if s.len() == 0 {
        seq![cur]
    } else if s[0] == sep {
        seq![cur] + spec_split_acc(s.drop_first(), sep, Seq::empty())
    } else {
        spec_split_acc(s.drop_first(), sep, cur.push(s[0]))
    }
}

/// The tokens between occurrences of a separator byte. An empty string
/// holds one empty token.
pub open spec fn spec_split_on(s: Seq<u8>, sep: u8) -> Seq<Seq<u8>> {
    spec_split_acc(s, sep, Seq::empty())
}

/// The values of a multi-valued element string: the tokens between
/// backslashes.
pub open spec fn spec_split_values(s: Seq<u8>) -> Seq<Seq<u8>> {
    spec_split_on(s, 0x5C)
}

/// A step of the split scan keeps the tokens already closed.
proof fn lemma_split_acc_prefix(done: Seq<Seq<u8>>, s: Seq<u8>, sep: u8, cur: Seq<u8>)
    ensures
        done + spec_split_acc(s, sep, cur) == (if s.len() == 0 {
            done + seq![cur]
        } else if s[0] == sep {
            (done + seq![cur]) + spec_split_acc(s.drop_first(), sep, Seq::empty())
        } else {
            done + spec_split_acc(s.drop_first(), sep, cur.push(s[0]))
        }),
{
    if s.len() != 0 && s[0] == sep {
        assert(done + (seq![cur] + spec_split_acc(s.drop_first(), sep, Seq::empty())) =~= (done
            + seq![cur]) + spec_split_acc(s.drop_first(), sep, Seq::empty()));
    }
}

/// Splits a string on a separator byte.
pub fn split_on(s: &[u8], sep: u8) -> (r: Vec<Vec<u8>>)
    ensures
        r@.len() == spec_split_on(s@, sep).len(),
        forall|k: int| 0 <= k < r@.len() ==> r@[k]@ == spec_split_on(s@, sep)[k],
{
    let n: usize = s.len();
    let mut out: Vec<Vec<u8>> = Vec::new();
    let mut cur: Vec<u8> = Vec::new();
    let mut i: usize = 0;
    assert(s@.subrange(0, n as int) =~= s@);
    assert(out@.map_values(|v: Vec<u8>| v@) + spec_split_acc(s@, sep, cur@) =~= spec_split_on(
        s@,
        sep,
    ));
    while i < n
        invariant
            0 <= i <= n,
            n == s@.len(),
            spec_split_on(s@, sep) == out@.map_values(|v: Vec<u8>| v@) + spec_split_acc(
                s@.subrange(i as int, n as int),
                sep,
                cur@,
            ),
        decreases n - i,
    {
        let ghost rest = s@.subrange(i as int, n as int);
        let ghost done0 = out@.map_values(|v: Vec<u8>| v@);
        let ghost cur0 = cur@;
        assert(rest.drop_first() =~= s@.subrange(i + 1, n as int));
        proof {
            lemma_split_acc_prefix(done0, rest, sep, cur0);
        }
        let c: u8 = s[i];
        if c == sep {
            out.push(cur);
            cur = Vec::new();
            assert(out@.map_values(|v: Vec<u8>| v@) =~= done0 + seq![cur0]);
        } else {
            cur.push(c);
            assert(cur@ == cur0.push(c));
        }
        i = i + 1;
    }
    assert(s@.subrange(n as int, n as int) =~= Seq::<u8>::empty());
    proof {
        lemma_split_acc_prefix(out@.map_values(|v: Vec<u8>| v@), Seq::empty(), sep, cur@);
    }
    out.push(cur);
    assert(out@.map_values(|v: Vec<u8>| v@) =~= spec_split_on(s@, sep));
    let r = out;
    assert forall|k: int| 0 <= k < r@.len() implies r@[k]@ == spec_split_on(s@, sep)[k] by {
        assert(r@.map_values(|v: Vec<u8>| v@)[k] == r@[k]@);
    }
    r
}

/// Splits a multi-valued element string on backslashes.
pub fn split_values(s: &[u8]) -> (r: Vec<Vec<u8>>)
    ensures
        r@.len() == spec_split_values(s@).len(),
        forall|k: int| 0 <= k < r@.len() ==> r@[k]@ == spec_split_values(s@)[k],
{
    split_on(s, 0x5C)
}

impl DicomElement {
    /// The first `u16` of this element's value in its byte order, for US
    /// attributes; `None` when fewer than two bytes are held.
    pub fn parse_ushort(&self) -> (r: Option<u16>)
        ensures
            r == (if self.data@.len() >= 2 {
                Some((u16_at(self.data@, 0, self.big_endian) as u16))
            } else {
                None::<u16>
            }),
    {
        if self.data.len() >= 2 {
            Some(crate::bytes::read_u16(&self.data, 0, self.big_endian))
        } else {
            None
        }
    }

    /// The first `u32` of this element's value in its byte order, for UL
    /// attributes; `None` when fewer than four bytes are held.
    pub fn parse_uint(&self) -> (r: Option<u32>)
        ensures
            r == (if self.data@.len() >= 4 {
                Some((u32_at(self.data@, 0, self.big_endian) as u32))
            } else {
                None::<u32>
            }),
    {
        if self.data.len() >= 4 {
            Some(crate::bytes::read_u32(&self.data, 0, self.big_endian))
        } else {
            None
        }
    }

    /// This element's first value as a whole-number integer string, for
    /// IS attributes.
    pub fn parse_int(&self) -> (r: Option<i32>)
        ensures
            r == spec_int_value(spec_elem_first_token(self.data@)),
    {
        let parts = split_values(self.data.as_slice());
        proof {
            lemma_split_first_nonempty(self.data@);
        }
        let token = crate::element::trim_trailing(parts[0].as_slice(), 0x20);
        let m: i64 = match parse_ds_millis(token.as_slice()) {
            Some(m) => m,
            None => {
                return None;
            },
        };
        if -0x8000_0000_000i64 <= m && m <= 0x7FFF_FFFF_C18i64 && m % 1000 == 0 {
            Some((m / 1000) as i32)
        } else {
            None
        }
    }

    /// The first decimal string of this element's value in thousandths,
    /// for single-valued DS attributes.
    pub fn parse_millis(&self) -> (r: Option<i64>)
        ensures
            r == spec_ds_millis(spec_elem_first_token(self.data@)),
    {
        let parts = split_values(self.data.as_slice());
        proof {
            lemma_split_first_nonempty(self.data@);
        }
        let token = crate::element::trim_trailing(parts[0].as_slice(), 0x20);
        parse_ds_millis(token.as_slice())
    }
}

/// The first value of a multi-valued string, trimmed of trailing
/// spaces.
pub open spec fn spec_elem_first_token(s: Seq<u8>) -> Seq<u8> {
    spec_trim_token(spec_split_values(s)[0])
}

/// The whole-number value of a decimal token: its units, when it parses
/// and is whole and within the 32-bit range.
pub open spec fn spec_int_value(s: Seq<u8>) -> Option<i32> {
    match spec_ds_millis(s) {
        Some(m) => {
            if -0x8000_0000_000 <= m <= 0x7FFF_FFFF_C18 && m % 1000 == 0 {
                Some((m / 1000) as i32)
            } else {
                None
            }
        },
        None => None,
    }
}

/// The split of any string holds at least one token.
pub proof fn lemma_split_first_nonempty(s: Seq<u8>)
    ensures
        spec_split_values(s).len() >= 1,
{
    lemma_split_acc_first_nonempty(s, 0x5C, Seq::empty());
}

/// The split of any string holds at least one token.
proof fn lemma_split_acc_first_nonempty(s: Seq<u8>, sep: u8, cur: Seq<u8>)
    ensures
        spec_split_acc(s, sep, cur).len() >= 1,
    decreases s.len(),
{
    if s.len() != 0 && s[0] != sep {
        lemma_split_acc_first_nonempty(s.drop_first(), sep, cur.push(s[0]));
    }
}


/// A token with its trailing space padding removed.
pub open spec fn spec_trim_token(s: Seq<u8>) -> Seq<u8> {
    s.subrange(0, crate::element::spec_trimmed_len(s, 0x20))
}

/// The decimal values of a multi-valued DS string, each token trimmed
/// of trailing spaces; `None` when any token fails to parse.
pub open spec fn spec_ds_list(s: Seq<u8>) -> Option<Seq<i64>> {
    let parts = spec_split_values(s);
    if forall|i: int|
        0 <= i < parts.len() ==> spec_ds_millis(#[trigger] spec_trim_token(parts[i])) is Some {
        Some(Seq::new(parts.len(), |i: int| spec_ds_millis(spec_trim_token(parts[i]))->Some_0))
    } else {
        None
    }
}

/// Reads a multi-valued DS string: every value in thousandths, or
/// `None` when any token fails to parse.
pub fn parse_ds_list(s: &[u8]) -> (r: Option<Vec<i64>>)
    ensures
        match r {
            Some(vs) => Some(vs@) == spec_ds_list(s@),
            None => spec_ds_list(s@) is None,
        },
{
    let parts = split_values(s);
    let n: usize = parts.len();
    let mut out: Vec<i64> = Vec::new();
    let mut i: usize = 0;
    while i < n
        invariant
            0 <= i <= n,
            n == spec_split_values(s@).len(),
            parts@.len() == n,
            forall|k: int| 0 <= k < n ==> parts@[k]@ == spec_split_values(s@)[k],
            out@.len() == i,
            forall|k: int|
                0 <= k < i ==> spec_ds_millis(
                    #[trigger] spec_trim_token(spec_split_values(s@)[k]),
                ) is Some,
            forall|k: int|
                0 <= k < i ==> out@[k] == spec_ds_millis(
                    #[trigger] spec_trim_token(spec_split_values(s@)[k]),
                )->Some_0,
        decreases n - i,
    {
        let token = crate::element::trim_trailing(parts[i].as_slice(), 0x20);
        assert(token@ == spec_trim_token(spec_split_values(s@)[i as int]));
        match parse_ds_millis(token.as_slice()) {
            Some(v) => {
                out.push(v);
            },
            None => {
                return None;
            },
        }
        i += 1;
    }
    assert(out@ =~= Seq::new(
        spec_split_values(s@).len(),
        |i: int| spec_ds_millis(spec_trim_token(spec_split_values(s@)[i]))->Some_0,
    ));
    Some(out)
}

/// The byte-string values of a multi-valued text element, each trimmed
/// of trailing spaces.
pub fn parse_strings(s: &[u8]) -> (r: Vec<Vec<u8>>)
    ensures
        r@.len() == spec_split_values(s@).len(),
        forall|k: int|
            0 <= k < r@.len() ==> r@[k]@ == spec_trim_token(#[trigger] spec_split_values(s@)[k]),
{
    let parts = split_values(s);
    let n: usize = parts.len();
    let mut out: Vec<Vec<u8>> = Vec::new();
    let mut i: usize = 0;
    while i < n
        invariant
            0 <= i <= n,
            n == spec_split_values(s@).len(),
            parts@.len() == n,
            forall|k: int| 0 <= k < n ==> parts@[k]@ == spec_split_values(s@)[k],
            out@.len() == i,
            forall|k: int|
                0 <= k < i ==> out@[k]@ == spec_trim_token(#[trigger] spec_split_values(s@)[k]),
        decreases n - i,
    {
        let token = crate::element::trim_trailing(parts[i].as_slice(), 0x20);
        out.push(token);
        i += 1;
    }
    out
}

} // verus!
