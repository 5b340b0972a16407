//! Text handling for attribute nodes: whitespace trimming on read, and the
//! decimal integer grammar used when a node's text is read as, or written
//! from, an integer.

use vstd::prelude::*;

verus! {

/// A character stripped from either end of raw attribute text on read:
/// ASCII whitespace, as it occurs in attribute node output.
pub open spec fn is_space(c: char) -> bool {
    c == ' ' || c == '\t' || c == '\n' || c == '\r' || c == '\u{c}'
}

/// Exec mirror of [`is_space`].
pub fn is_space_char(c: char) -> (r: bool)
    ensures
        r == is_space(c),
{
    c == ' ' || c == '\t' || c == '\n' || c == '\r' || c == '\u{c}'
}

pub open spec fn trim_front(s: Seq<char>) -> Seq<char>
    decreases s.len(),
{
    if s.len() > 0 && is_space(s[0]) {
        trim_front(s.drop_first())
    } else {
        s
    }
}

pub open spec fn trim_back(s: Seq<char>) -> Seq<char>
    decreases s.len(),
{
    if s.len() > 0 && is_space(s.last()) {
        trim_back(s.drop_last())
    } else {
        s
    }
}

/// The text with ASCII whitespace removed from both ends.
pub open spec fn spec_trim(s: Seq<char>) -> Seq<char> {
    trim_back(trim_front(s))
}

/// Trims surrounding whitespace, as every read of an attribute node does.
pub fn trim(s: &str) -> (r: String)
    ensures
        r@ == spec_trim(s@),
{
    let n = s.unicode_len();
    let mut lo: usize = 0;
    proof {
        assert(s@.skip(0) =~= s@);
    }
    while lo < n && is_space_char(s.get_char(lo))
        invariant
            lo <= n,
            n == s@.len(),
            trim_front(s@) == trim_front(s@.skip(lo as int)),
        decreases n - lo,
    {
        proof {
            assert(s@.skip(lo as int).drop_first() =~= s@.skip(lo as int + 1));
        }
        lo = lo + 1;
    }
    proof {
        assert(trim_front(s@) =~= s@.skip(lo as int));
    }
    let mut hi: usize = n;
    while hi > lo && is_space_char(s.get_char(hi - 1))
        invariant
            lo <= hi <= n,
            n == s@.len(),
            trim_front(s@) == s@.skip(lo as int),
            spec_trim(s@) == trim_back(s@.subrange(lo as int, hi as int)),
        decreases hi,
    {
        proof {
            assert(s@.subrange(lo as int, hi as int).drop_last() =~= s@.subrange(
                lo as int,
                hi as int - 1,
            ));
            assert(s@.subrange(lo as int, hi as int).last() == s@[hi - 1]);
        }
        hi = hi - 1;
    }
    proof {
        assert(spec_trim(s@) =~= s@.subrange(lo as int, hi as int));
    }
    let piece = s.substring_char(lo, hi);
    String::from_str(piece)
}

/// Character-for-character string equality; used to locate a node by its
/// path.
pub fn str_eq(a: &str, b: &str) -> (r: bool)
    ensures
        r == (a@ == b@),
{
    let n = a.unicode_len();
    if n != b.unicode_len() {
        return false;
    }
    let mut i: usize = 0;
    while i < n
        invariant
            i <= n,
            n == a@.len(),
            n == b@.len(),
            forall|k: int| 0 <= k < i ==> a@[k] == b@[k],
        decreases n - i,
    {
        if a.get_char(i) != b.get_char(i) {
            return false;
        }
        i = i + 1;
    }
    proof {
        assert(a@ =~= b@);
    }
    true
}

/// A decimal digit.
pub open spec fn is_digit(c: char) -> bool {
    48 <= c as u32 && c as u32 <= 57
}

pub open spec fn digit_val(c: char) -> int {
    c as u32 - 48
}

pub open spec fn all_digits(s: Seq<char>) -> bool {
    forall|i: int| 0 <= i < s.len() ==> is_digit(s[i])
}

/// The value of a digit string, most significant digit first.
pub open spec fn digits_val(s: Seq<char>) -> int
    decreases s.len(),
{
    if s.len() == 0 {
        0
    } else {
        digits_val(s.drop_last()) * 10 + digit_val(s.last())
    }
}

/// The integer grammar of the backing store's text nodes, exactly as the
/// standard library parses a 32-bit integer: an optional sign, then one or
/// more decimal digits, the whole text within range.
pub open spec fn spec_parse_i32(s: Seq<char>) -> Option<i32> {
    let signed = s.len() > 0 && (s[0] == '-' || s[0] == '+');
    let neg = s.len() > 0 && s[0] == '-';
    let digits = if signed {
        s.drop_first()
    } else {
        s
    };
    if digits.len() > 0 && all_digits(digits) {
        let v = if neg {
            -digits_val(digits)
        } else {
            digits_val(digits)
        };
        if i32::MIN <= v <= i32::MAX {
            Some(v as i32)
        } else {
            None
        }
    } else {
        None
    }
}

proof fn lemma_digits_val_nonneg(s: Seq<char>)
    requires
        all_digits(s),
    ensures
        digits_val(s) >= 0,
    decreases s.len(),
{
    if s.len() > 0 {
        assert(is_digit(s[s.len() - 1]));
        lemma_digits_val_nonneg(s.drop_last());
    }
}

/// Appending digits never shrinks the value of a digit string.
proof fn lemma_digits_val_prefix(s: Seq<char>, n: int)
    requires
        all_digits(s),
        0 <= n <= s.len(),
    ensures
        digits_val(s.take(n)) <= digits_val(s),
    decreases s.len() - n,
{
    if n < s.len() {
        lemma_digits_val_prefix(s, n + 1);
        assert(s.take(n + 1).drop_last() =~= s.take(n));
        lemma_digits_val_nonneg(s.take(n));
        assert(is_digit(s[n]));
        assert(s.take(n + 1).last() == s[n]);
    } else {
        assert(s.take(n) =~= s);
    }
}

/// Parses trimmed attribute text as a 32-bit integer; `None` exactly where
/// the standard library's integer parse fails.
pub fn parse_i32(s: &str) -> (r: Option<i32>)
    ensures
        r == spec_parse_i32(s@),
{
    let n = s.unicode_len();
    let mut i: usize = 0;
    let mut neg = false;
    if n > 0 {
        let c0 = s.get_char(0);
        if c0 == '-' {
            neg = true;
            i = 1;
        } else if c0 == '+' {
            i = 1;
        }
    }
    if i == n {
        return None;
    }
    let ghost digits = if i == 1 {
        s@.drop_first()
    } else {
        s@
    };
    proof {
        assert(digits =~= s@.subrange(i as int, n as int));
    }
    let mut acc: u64 = 0;
    let mut j: usize = i;
    while j < n
        invariant
            i <= j <= n,
            n == s@.len(),
            i <= 1,
            digits =~= s@.subrange(i as int, n as int),
            digits == (if s@.len() > 0 && (s@[0] == '-' || s@[0] == '+') {
                s@.drop_first()
            } else {
                s@
            }),
            (i == 1) == (s@.len() > 0 && (s@[0] == '-' || s@[0] == '+')),
            neg == (s@.len() > 0 && s@[0] == '-'),
            acc == digits_val(s@.subrange(i as int, j as int)),
            acc <= 0x8000_0000u64,
            all_digits(s@.subrange(i as int, j as int)),
        decreases n - j,
    {
        let c = s.get_char(j);
        let u = c as u32;
        if u < 48 || u > 57 {
            proof {
                assert(digits[j as int - i as int] == s@[j as int]);
                assert(!is_digit(digits[j as int - i as int]));
            }
            return None;
        }
        let d = u - 48;
        acc = acc * 10 + (d as u64);
        proof {
            assert(s@.subrange(i as int, j as int + 1).drop_last() =~= s@.subrange(
                i as int,
                j as int,
            ));
        }
        j = j + 1;
        if acc > 0x8000_0000u64 {
            proof {
                if all_digits(digits) {
                    lemma_digits_val_prefix(digits, j as int - i as int);
                    assert(digits.take(j as int - i as int) =~= s@.subrange(i as int, j as int));
                }
            }
            return None;
        }
    }
    proof {
        assert(s@.subrange(i as int, n as int) =~= digits);
    }
    if neg {
        if acc == 0x8000_0000u64 {
            Some(i32::MIN)
        } else {
            Some(-(acc as i32))
        }
    } else {
        if acc >= 0x8000_0000u64 {
            None
        } else {
            Some(acc as i32)
        }
    }
}

pub open spec fn digit_char(d: int) -> char {
    if d == 0 {
        '0'
    } else if d == 1 {
        '1'
    } else if d == 2 {
        '2'
    } else if d == 3 {
        '3'
    } else if d == 4 {
        '4'
    } else if d == 5 {
        '5'
    } else if d == 6 {
        '6'
    } else if d == 7 {
        '7'
    } else if d == 8 {
        '8'
    } else {
        '9'
    }
}

/// Canonical decimal rendering of a non-negative integer, no leading zeros.
pub open spec fn spec_fmt_nat(n: int) -> Seq<char>
    decreases n,
{
    if n < 10 {
        seq![digit_char(n)]
    } else {
        spec_fmt_nat(n / 10).push(digit_char(n % 10))
    }
}

/// Canonical decimal rendering of a 32-bit integer, exactly what is written
/// to a node when an integer value is stored.
pub open spec fn spec_fmt_i32(v: int) -> Seq<char> {
    if v < 0 {
        seq!['-'] + spec_fmt_nat(-v)
    } else {
        spec_fmt_nat(v)
    }
}

fn digit_str(d: u32) -> (r: &'static str)
    requires
        d < 10,
    ensures
        r@ =~= seq![digit_char(d as int)],
{
    if d == 0 {
        proof {
            reveal_strlit("0");
        }
        "0"
    } else if d == 1 {
        proof {
            reveal_strlit("1");
        }
        "1"
    } else if d == 2 {
        proof {
            reveal_strlit("2");
        }
        "2"
    } else if d == 3 {
        proof {
            reveal_strlit("3");
        }
        "3"
    } else if d == 4 {
        proof {
            reveal_strlit("4");
        }
        "4"
    } else if d == 5 {
        proof {
            reveal_strlit("5");
        }
        "5"
    } else if d == 6 {
        proof {
            reveal_strlit("6");
        }
        "6"
    } else if d == 7 {
        proof {
            reveal_strlit("7");
        }
        "7"
    } else if d == 8 {
        proof {
            reveal_strlit("8");
        }
        "8"
    } else {
        proof {
            reveal_strlit("9");
        }
        "9"
    }
}

fn fmt_u32(m: u32) -> (r: String)
    ensures
        r@ == spec_fmt_nat(m as int),
    decreases m,
{
    if m < 10 {
        String::from_str(digit_str(m))
    } else {
        let mut s = fmt_u32(m / 10);
        s.append(digit_str(m % 10));
        proof {
            assert(s@ =~= spec_fmt_nat(m as int));
        }
        s
    }
}

proof fn lemma_fmt_nat_digits(n: int)
    requires
        n >= 0,
    ensures
        all_digits(spec_fmt_nat(n)),
        digits_val(spec_fmt_nat(n)) == n,
        spec_fmt_nat(n).len() >= 1,
    decreases n,
{
    if n < 10 {
        let whole = spec_fmt_nat(n);
        assert(whole =~= seq![digit_char(n)]);
        assert(whole.drop_last() =~= Seq::<char>::empty());
        assert(digits_val(Seq::<char>::empty()) == 0);
        assert(whole.last() == digit_char(n));
        assert(digit_val(digit_char(n)) == n);
        assert(is_digit(digit_char(n)));
        assert(forall|i: int| 0 <= i < whole.len() ==> is_digit(#[trigger] whole[i]));
    } else {
        lemma_fmt_nat_digits(n / 10);
        vstd::arithmetic::div_mod::lemma_fundamental_div_mod(n, 10);
        let prev = spec_fmt_nat(n / 10);
        let whole = spec_fmt_nat(n);
        assert(whole == prev.push(digit_char(n % 10)));
        assert(whole.drop_last() =~= prev);
        assert(whole.last() == digit_char(n % 10));
        assert(digit_val(digit_char(n % 10)) == n % 10);
        assert(forall|i: int|
            0 <= i < whole.len() ==> is_digit(
                #[trigger] whole[i],
            )) by {
            assert(forall|i: int| 0 <= i < prev.len() ==> #[trigger] whole[i] == prev[i]);
        }
    }
}

/// A node written with the canonical rendering of an integer reads back as
/// that integer: trimming leaves the rendering unchanged and parsing it
/// yields the value that was written.
pub proof fn lemma_fmt_i32_roundtrip(v: int)
    requires
        i32::MIN <= v <= i32::MAX,
    ensures
        spec_trim(spec_fmt_i32(v)) == spec_fmt_i32(v),
        spec_parse_i32(spec_fmt_i32(v)) == Some(v as i32),
{
    let s = spec_fmt_i32(v);
    if v >= 0 {
        lemma_fmt_nat_digits(v);
        assert(is_digit(s[0]));
        assert(is_digit(s[s.len() - 1]));
        assert(!is_space(s[0]) && !is_space(s.last()));
        assert(trim_front(s) == s);
        assert(trim_back(s) == s);
        assert(s[0] != '-' && s[0] != '+');
    } else {
        lemma_fmt_nat_digits(-v);
        let digits = spec_fmt_nat(-v);
        assert(s =~= seq!['-'] + digits);
        assert(s[0] == '-');
        assert(!is_space(s[0]));
        assert(s.last() == digits.last());
        assert(is_digit(s[s.len() - 1]));
        assert(!is_space(s.last()));
        assert(trim_front(s) == s);
        assert(trim_back(s) == s);
        assert(s.drop_first() =~= digits);
        assert(digits_val(digits) == -v);
    }
}

/// Formats a 32-bit integer in canonical decimal, as every integer write to
/// an attribute node does.
pub fn fmt_i32(v: i32) -> (r: String)
    ensures
        r@ == spec_fmt_i32(v as int),
{
    if v >= 0 {
        fmt_u32(v as u32)
    } else {
        let m: u32 = if v == i32::MIN {
            0x8000_0000u32
        } else {
            (-v) as u32
        };
        let mut s = String::from_str("-");
        proof {
            reveal_strlit("-");
        }
        s.append(fmt_u32(m).as_str());
        proof {
            assert(s@ =~= spec_fmt_i32(v as int));
        }
        s
    }
}

} // verus!
