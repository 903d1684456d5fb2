//! Axial hexagon coordinates and their canonical string form.
//!
//! A hexagon is addressed by axial coordinates `(q, r)`; the derived third
//! coordinate `s = -q - r` completes the cube form. The canonical string form
//! `(q:r)` keys the persistence store; `key_string` produces it and `parse`
//! reads it back.

use vstd::prelude::*;

use vstd::string::StrSliceExecFns;
use vstd::string::StringExecFns;

verus! {

/// Axial coordinates of one overworld hexagon.
#[derive(Clone, Copy, PartialEq, Eq, Structural, Hash, Debug)]
pub struct HexId {
    pub q: i32,
    pub r: i32,
}

/// Is `c` a decimal digit?
pub open spec fn is_digit(c: char) -> bool {
    '0' <= c && c <= '9'
}

/// The value of a decimal digit.
pub open spec fn digit_val(c: char) -> int {
    c as int - '0' as int
}

/// Are all characters of `s` decimal digits?
pub open spec fn all_digits(s: Seq<char>) -> bool {
    forall|i: int| 0 <= i < s.len() ==> is_digit(#[trigger] s[i])
}

/// The number a digit string denotes.
pub open spec fn digits_val(s: Seq<char>) -> int
    decreases s.len(),
{
    if s.len() == 0 {
        0
    } else {
        digits_val(s.drop_last()) * 10 + digit_val(s.last())
    }
}

/// Is `s` an optionally signed, nonempty digit string?
pub open spec fn int_shape(s: Seq<char>) -> bool {
    if s.len() == 0 {
        false
    } else if s[0] == '-' || s[0] == '+' {
        s.len() > 1 && all_digits(s.subrange(1, s.len() as int))
    } else {
        all_digits(s)
    }
}

/// The integer an optionally signed digit string denotes.
pub open spec fn int_val(s: Seq<char>) -> int {
    if s.len() > 0 && s[0] == '-' {
        -digits_val(s.subrange(1, s.len() as int))
    } else if s.len() > 0 && s[0] == '+' {
        digits_val(s.subrange(1, s.len() as int))
    } else {
        digits_val(s)
    }
}

/// The canonical digit string of a non-negative number: no sign, no leading
/// zeros.
pub open spec fn dec_digits(n: int) -> Seq<char>
    decreases n,
{
    if n <= 0 {
        seq!['0']
    } else if n < 10 {
        seq![digit_char(n)]
    } else {
        dec_digits(n / 10) + seq![digit_char(n % 10)]
    }
}

/// The character of a decimal digit value.
pub open spec fn digit_char(d: int) -> char {
    if d == 0 {
        '0'
    } else if d == 1 {
        '1'
    } else if d == 2 {
        '2'
    } else if d == 3 {
        '3'
    } else if d == 4 {
        '4'
    } else if d == 5 {
        '5'
    } else if d == 6 {
        '6'
    } else if d == 7 {
        '7'
    } else if d == 8 {
        '8'
    } else {
        '9'
    }
}

/// The canonical string of an integer: a minus sign for negatives, then the
/// digits.
pub open spec fn dec_int(v: int) -> Seq<char> {
    if v < 0 {
        seq!['-'] + dec_digits(-v)
    } else {
        dec_digits(v)
    }
}

/// The canonical key of a hexagon: `(q:r)`.
pub open spec fn key_of(q: int, r: int) -> Seq<char> {
    seq!['('] + dec_int(q) + seq![':'] + dec_int(r) + seq![')']
}

/// Why a string is not a hexagon key.
#[derive(Clone, Copy, PartialEq, Eq, Structural, Debug)]
pub enum HexParseError {
    /// The string does not start with `(`.
    MissingOpen,
    /// The string does not end with `)`.
    MissingClose,
    /// No `:` between the parentheses.
    NoColon,
    /// The part before the `:` is not an integer that fits.
    BadQ,
    /// The part after the `:` is not an integer that fits.
    BadR,
}

/// The index of the first `:` at or after `j`, or the length if there is
/// none.
pub open spec fn colon_from(s: Seq<char>, j: int) -> int
    decreases s.len() - j,
{
    if j < 0 || j >= s.len() {
        s.len() as int
    } else if s[j] == ':' {
        j
    } else {
        colon_from(s, j + 1)
    }
}

/// Where the `q` part of a key ends: at the first inner `:`.
pub open spec fn q_end(s: Seq<char>) -> int {
    colon_from(s, 1)
}

/// Where the `r` part of a key ends: at the next `:` if another follows, else
/// at the closing parenthesis.
pub open spec fn r_end(s: Seq<char>) -> int {
    let c2 = colon_from(s, q_end(s) + 1);
    if c2 < s.len() - 1 {
        c2
    } else {
        s.len() - 1
    }
}

/// Digit strings denote non-negative numbers.
proof fn lemma_digits_val_nonneg(s: Seq<char>)
    requires
        all_digits(s),
    ensures
        digits_val(s) >= 0,
    decreases s.len(),
{
    if s.len() > 0 {
        assert(all_digits(s.drop_last())) by {
            assert(forall|i: int| 0 <= i < s.len() - 1 ==> s.drop_last()[i] == s[i]);
        }
        lemma_digits_val_nonneg(s.drop_last());
    }
}

/// Appending digits never shrinks the denoted number.
proof fn lemma_digits_val_prefix_le(s: Seq<char>, j: int)
    requires
        all_digits(s),
        0 <= j <= s.len(),
    ensures
        digits_val(s.subrange(0, j)) <= digits_val(s),
    decreases s.len() - j,
{
    if j == s.len() {
        assert(s.subrange(0, j) =~= s);
    } else {
        lemma_digits_val_prefix_le(s, j + 1);
        let p = s.subrange(0, j);
        let p1 = s.subrange(0, j + 1);
        assert(p1.drop_last() =~= p);
        assert(all_digits(p)) by {
            assert(forall|i: int| 0 <= i < j ==> p[i] == s[i]);
        }
        lemma_digits_val_nonneg(p);
        assert(digits_val(p1) == digits_val(p) * 10 + digit_val(s[j]));
    }
}

/// A canonical digit string is nonempty and all digits.
proof fn lemma_dec_digits_are_digits(n: int)
    ensures
        dec_digits(n).len() >= 1,
        all_digits(dec_digits(n)),
    decreases n,
{
    if n > 0 && n >= 10 {
        lemma_dec_digits_are_digits(n / 10);
        let a = dec_digits(n / 10);
        let whole = a + seq![digit_char(n % 10)];
        assert forall|i: int| 0 <= i < whole.len() implies is_digit(#[trigger] whole[i]) by {
            if i < a.len() {
                assert(whole[i] == a[i]);
            }
        }
    }
}

/// A canonical digit string denotes the number it was made from.
proof fn lemma_dec_digits_val(n: int)
    requires
        n >= 0,
    ensures
        digits_val(dec_digits(n)) == n,
    decreases n,
{
    if n < 10 {
        assert(dec_digits(n).drop_last() =~= Seq::<char>::empty());
        assert(digit_val(digit_char(n)) == n);
        assert(digits_val(dec_digits(n)) == digits_val(Seq::<char>::empty()) * 10 + digit_val(
            digit_char(n),
        ));
    } else {
        lemma_dec_digits_val(n / 10);
        let a = dec_digits(n / 10);
        let whole = a + seq![digit_char(n % 10)];
        assert(whole.drop_last() =~= a);
        assert(whole.last() == digit_char(n % 10));
        assert(digit_val(digit_char(n % 10)) == n % 10);
        assert(digits_val(whole) == digits_val(a) * 10 + n % 10);
    }
}

/// Every character of an integer's canonical form is a digit or a leading
/// minus sign; none of them is a `:` or a `)`.
proof fn lemma_dec_int_chars(v: int)
    ensures
        dec_int(v).len() >= 1,
        forall|i: int|
            0 <= i < dec_int(v).len() ==> (is_digit(#[trigger] dec_int(v)[i]) || dec_int(v)[i]
                == '-'),
    decreases (if v < 0 {
        1int
    } else {
        0int
    }),
{
    if v < 0 {
        lemma_dec_digits_are_digits(-v);
        let whole = seq!['-'] + dec_digits(-v);
        assert forall|i: int|
            0 <= i < whole.len() implies (is_digit(#[trigger] whole[i]) || whole[i] == '-') by {
            if i >= 1 {
                assert(whole[i] == dec_digits(-v)[i - 1]);
            }
        }
    } else {
        lemma_dec_digits_are_digits(v);
    }
}

/// An integer's canonical form has integer shape and denotes the integer.
proof fn lemma_dec_int_val(v: int)
    ensures
        int_shape(dec_int(v)),
        int_val(dec_int(v)) == v,
{
    if v < 0 {
        lemma_dec_digits_are_digits(-v);
        lemma_dec_digits_val(-v);
        let whole = seq!['-'] + dec_digits(-v);
        assert(whole[0] == '-');
        assert(whole.subrange(1, whole.len() as int) =~= dec_digits(-v));
    } else {
        lemma_dec_digits_are_digits(v);
        lemma_dec_digits_val(v);
        let whole = dec_digits(v);
        assert(is_digit(whole[0]));
        assert(whole[0] != '-' && whole[0] != '+');
    }
}

/// The colon search finds the first colon: if nothing before `k` is a colon
/// and `k` is one (or is the end), the search from `j` lands on `k`.
proof fn lemma_colon_from_lands(s: Seq<char>, j: int, k: int)
    requires
        0 <= j <= k <= s.len(),
        forall|i: int| j <= i < k ==> s[i] != ':',
        k == s.len() || s[k] == ':',
    ensures
        colon_from(s, j) == k,
    decreases k - j,
{
    if j < k {
        lemma_colon_from_lands(s, j + 1, k);
    }
}

/// Reading a canonical key back recovers its coordinates: the key has the
/// parsed shape, its `q` part denotes `q` and its `r` part denotes `r`. With
/// the contracts of `key_string` and `parse`, parsing a key string yields
/// exactly the hexagon it was made from.
pub proof fn lemma_key_round_trip(q: i32, r: i32)
    ensures
        ({
            let t = key_of(q as int, r as int);
            &&& t.len() >= 2
            &&& t[0] == '('
            &&& t[t.len() - 1] == ')'
            &&& q_end(t) < t.len() - 1
            &&& int_shape(t.subrange(1, q_end(t)))
            &&& int_val(t.subrange(1, q_end(t))) == q
            &&& int_shape(t.subrange(q_end(t) + 1, r_end(t)))
            &&& int_val(t.subrange(q_end(t) + 1, r_end(t))) == r
        }),
{
    let t = key_of(q as int, r as int);
    let dq = dec_int(q as int);
    let dr = dec_int(r as int);
    lemma_dec_int_chars(q as int);
    lemma_dec_int_chars(r as int);
    lemma_dec_int_val(q as int);
    lemma_dec_int_val(r as int);
    assert(t.len() == 3 + dq.len() + dr.len());
    assert(t[0] == '(');
    assert(t[t.len() - 1] == ')');
    let c1 = 1 + dq.len() as int;
    assert(t[c1] == ':');
    assert forall|i: int| 1 <= i < c1 implies t[i] != ':' by {
        assert(t[i] == dq[i - 1]);
        assert(is_digit(dq[i - 1]) || dq[i - 1] == '-');
    }
    lemma_colon_from_lands(t, 1, c1);
    assert(q_end(t) == c1);
    assert forall|i: int| c1 + 1 <= i < t.len() implies t[i] != ':' by {
        if i < t.len() - 1 {
            assert(t[i] == dr[i - (c1 + 1)]);
            assert(is_digit(dr[i - (c1 + 1)]) || dr[i - (c1 + 1)] == '-');
        } else {
            assert(t[i] == ')');
        }
    }
    lemma_colon_from_lands(t, c1 + 1, t.len() as int);
    assert(colon_from(t, c1 + 1) == t.len());
    assert(r_end(t) == t.len() - 1);
    assert(t.subrange(1, c1) =~= dq);
    assert(t.subrange(c1 + 1, t.len() - 1) =~= dr);
}

/// The `&str` of one digit.
fn digit_str(d: u32) -> (s: &'static str)
    requires
        d < 10,
    ensures
        s@ == seq![digit_char(d as int)],
{
    proof {
        reveal_strlit("0");
        reveal_strlit("1");
        reveal_strlit("2");
        reveal_strlit("3");
        reveal_strlit("4");
        reveal_strlit("5");
        reveal_strlit("6");
        reveal_strlit("7");
        reveal_strlit("8");
        reveal_strlit("9");
    }
    let s = match d {
        0 => "0",
        1 => "1",
        2 => "2",
        3 => "3",
        4 => "4",
        5 => "5",
        6 => "6",
        7 => "7",
        8 => "8",
        _ => "9",
    };
    proof {
        assert(s@ =~= seq![digit_char(d as int)]);
    }
    s
}

/// Append the canonical digits of `n`.
fn append_dec_u32(out: &mut String, n: u32)
    ensures
        final(out)@ == old(out)@ + dec_digits(n as int),
    decreases n,
{
    if n < 10 {
        out.append(digit_str(n));
        proof {
            assert(old(out)@ + seq![digit_char(n as int)] =~= old(out)@ + dec_digits(n as int));
        }
    } else {
        append_dec_u32(out, n / 10);
        out.append(digit_str(n % 10));
        proof {
            assert((old(out)@ + dec_digits(n as int / 10)) + seq![digit_char(n as int % 10)] =~= old(
                out,
            )@ + dec_digits(n as int));
        }
    }
}

/// Append the canonical form of `v`.
fn append_dec_i32(out: &mut String, v: i32)
    ensures
        final(out)@ == old(out)@ + dec_int(v as int),
{
    proof {
        reveal_strlit("-");
    }
    if v < 0 {
        out.append("-");
        let magnitude: u32 = if v == i32::MIN {
            2147483648u32
        } else {
            (-v) as u32
        };
        append_dec_u32(out, magnitude);
        proof {
            assert((old(out)@ + "-"@) + dec_digits(magnitude as int) =~= old(out)@ + dec_int(
                v as int,
            ));
        }
    } else {
        append_dec_u32(out, v as u32);
    }
}

/// A colon search lands between its start and the length.
proof fn lemma_colon_from_range(s: Seq<char>, j: int)
    requires
        0 <= j <= s.len(),
    ensures
        j <= colon_from(s, j) <= s.len(),
    decreases s.len() - j,
{
    if j < s.len() && s[j] != ':' {
        lemma_colon_from_range(s, j + 1);
    }
}

/// The index of the first `:` at or after `from`, or the length.
fn find_colon(s: &str, from: usize, n: usize) -> (c: usize)
    requires
        n == s@.len(),
        from <= n,
    ensures
        c == colon_from(s@, from as int),
{
    let mut i = from;
    while i < n
        invariant
            n == s@.len(),
            from <= i <= n,
            colon_from(s@, from as int) == colon_from(s@, i as int),
        decreases n - i,
    {
        if s.get_char(i) == ':' {
            return i;
        }
        i = i + 1;
    }
    n
}

/// Parse the characters `from..to` of `s` as an `i32`; `None` when they are
/// not an optionally signed digit string, or denote a number that does not
/// fit.
fn parse_i32_seg(s: &str, from: usize, to: usize) -> (r: Option<i32>)
    requires
        from <= to <= s@.len(),
    ensures
        ({
            let seg = s@.subrange(from as int, to as int);
            match r {
                Some(v) => int_shape(seg) && int_val(seg) == v,
                None => !(int_shape(seg) && i32::MIN <= int_val(seg) <= i32::MAX),
            }
        }),
{
    let ghost seg = s@.subrange(from as int, to as int);
    if from == to {
        return None;
    }
    let first = s.get_char(from);
    let negative = first == '-';
    let signed = negative || first == '+';
    let dstart = if signed {
        from + 1
    } else {
        from
    };
    proof {
        assert(seg[0] == first);
    }
    if dstart == to {
        return None;
    }
    let ghost dpart = s@.subrange(dstart as int, to as int);
    proof {
        if signed {
            assert(seg.subrange(1, seg.len() as int) =~= dpart);
        } else {
            assert(seg =~= dpart);
        }
    }
    let mut acc: u64 = 0;
    let mut j = dstart;
    while j < to
        invariant
            from <= dstart <= j <= to <= s@.len(),
            dstart < to,
            seg == s@.subrange(from as int, to as int),
            dpart == s@.subrange(dstart as int, to as int),
            seg[0] == first,
            negative == (first == '-'),
            signed == (negative || first == '+'),
            dstart == if signed {
                from + 1int
            } else {
                from as int
            },
            (if signed {
                seg.subrange(1, seg.len() as int)
            } else {
                seg
            }) == dpart,
            acc == digits_val(s@.subrange(dstart as int, j as int)),
            acc <= 2147483648,
            all_digits(s@.subrange(dstart as int, j as int)),
        decreases to - j,
    {
        let c = s.get_char(j);
        let code = c as u32;
        if code < 48 || code > 57 {
            proof {
                assert(dpart[j - dstart] == c);
                assert(!is_digit(c));
                assert(!all_digits(dpart));
                assert(!int_shape(seg));
            }
            return None;
        }
        proof {
            assert(is_digit(c));
        }
        let d = code - 48;
        acc = acc * 10 + (d as u64);
        proof {
            let p1 = s@.subrange(dstart as int, j as int + 1);
            assert(p1.drop_last() =~= s@.subrange(dstart as int, j as int));
            assert(p1.last() == c);
            assert(digit_val(c) == d);
        }
        if acc > 2147483648 {
            proof {
                if all_digits(dpart) {
                    assert(dpart.subrange(0, j as int + 1 - dstart) =~= s@.subrange(
                        dstart as int,
                        j as int + 1,
                    ));
                    lemma_digits_val_prefix_le(dpart, j as int + 1 - dstart);
                    assert(digits_val(dpart) > 2147483648);
                    assert(!(int_shape(seg) && i32::MIN <= int_val(seg) <= i32::MAX));
                } else {
                    assert(!int_shape(seg));
                }
            }
            return None;
        }
        j = j + 1;
    }
    proof {
        assert(s@.subrange(dstart as int, j as int) =~= dpart);
        assert(int_shape(seg));
        if negative {
            assert(int_val(seg) == -digits_val(dpart));
        } else {
            assert(int_val(seg) == digits_val(dpart));
        }
    }
    if negative {
        Some((-(acc as i64)) as i32)
    } else {
        if acc > 2147483647 {
            return None;
        }
        Some(acc as i32)
    }
}

impl HexId {
    pub fn new(q: i32, r: i32) -> (h: HexId)
        ensures
            h == (HexId { q, r }),
    {
        HexId { q, r }
    }

    pub fn q(&self) -> (v: i32)
        ensures
            v == self.q,
    {
        self.q
    }

    pub fn r(&self) -> (v: i32)
        ensures
            v == self.r,
    {
        self.r
    }

    /// The derived cube coordinate `-q - r`, which machine limits force to
    /// stay representable.
    pub fn s(&self) -> (v: i32)
        requires
            i32::MIN <= -(self.q as int) - (self.r as int) <= i32::MAX,
        ensures
            v == -(self.q as int) - (self.r as int),
    {
        ((-(self.q as i64)) - (self.r as i64)) as i32
    }

    /// Componentwise sum.
    pub fn shifted(&self, other: HexId) -> (h: HexId)
        requires
            i32::MIN <= self.q + other.q <= i32::MAX,
            i32::MIN <= self.r + other.r <= i32::MAX,
        ensures
            h == (HexId { q: (self.q + other.q) as i32, r: (self.r + other.r) as i32 }),
    {
        HexId { q: self.q + other.q, r: self.r + other.r }
    }

    /// Read a hexagon back from its key form `(q:r)`. Exactly the strings of
    /// that shape parse: an opening parenthesis, an optionally signed decimal
    /// `q`, a colon, an optionally signed decimal `r` (running to the next
    /// colon, if any more follow, else to the closing parenthesis), and a
    /// closing parenthesis.
    pub fn parse(s: &str) -> (r: Result<HexId, HexParseError>)
        ensures
            ({
                let t = s@;
                let qseg = t.subrange(1, q_end(t));
                let rseg = t.subrange(q_end(t) + 1, r_end(t));
                match r {
                    Ok(h) => {
                        &&& t.len() >= 2
                        &&& t[0] == '('
                        &&& t[t.len() - 1] == ')'
                        &&& q_end(t) < t.len() - 1
                        &&& int_shape(qseg)
                        &&& h.q == int_val(qseg)
                        &&& int_shape(rseg)
                        &&& h.r == int_val(rseg)
                    },
                    Err(HexParseError::MissingOpen) => t.len() == 0 || t[0] != '(',
                    Err(HexParseError::MissingClose) => {
                        &&& t.len() >= 1
                        &&& t[0] == '('
                        &&& !(t.len() >= 2 && t[t.len() - 1] == ')')
                    },
                    Err(HexParseError::NoColon) => {
                        &&& t.len() >= 2
                        &&& t[0] == '('
                        &&& t[t.len() - 1] == ')'
                        &&& q_end(t) >= t.len() - 1
                    },
                    Err(HexParseError::BadQ) => {
                        &&& t.len() >= 2
                        &&& t[0] == '('
                        &&& t[t.len() - 1] == ')'
                        &&& q_end(t) < t.len() - 1
                        &&& !(int_shape(qseg) && i32::MIN <= int_val(qseg) <= i32::MAX)
                    },
                    Err(HexParseError::BadR) => {
                        &&& t.len() >= 2
                        &&& t[0] == '('
                        &&& t[t.len() - 1] == ')'
                        &&& q_end(t) < t.len() - 1
                        &&& int_shape(qseg)
                        &&& i32::MIN <= int_val(qseg) <= i32::MAX
                        &&& !(int_shape(rseg) && i32::MIN <= int_val(rseg) <= i32::MAX)
                    },
                }
            }),
    {
        let n = s.unicode_len();
        if n == 0 || s.get_char(0) != '(' {
            return Err(HexParseError::MissingOpen);
        }
        if n < 2 || s.get_char(n - 1) != ')' {
            return Err(HexParseError::MissingClose);
        }
        let c1 = find_colon(s, 1, n);
        proof {
            lemma_colon_from_range(s@, 1);
        }
        if c1 >= n - 1 {
            return Err(HexParseError::NoColon);
        }
        let c2 = find_colon(s, c1 + 1, n);
        proof {
            lemma_colon_from_range(s@, c1 as int + 1);
        }
        let rend = if c2 < n - 1 {
            c2
        } else {
            n - 1
        };
        let q = match parse_i32_seg(s, 1, c1) {
            Some(v) => v,
            None => {
                return Err(HexParseError::BadQ);
            },
        };
        let r = match parse_i32_seg(s, c1 + 1, rend) {
            Some(v) => v,
            None => {
                return Err(HexParseError::BadR);
            },
        };
        Ok(HexId { q, r })
    }

    /// The canonical persistence key of this hexagon: `(q:r)`.
    pub fn key_string(&self) -> (s: String)
        ensures
            s@ == key_of(self.q as int, self.r as int),
    {
        proof {
            reveal_strlit("(");
            reveal_strlit(":");
            reveal_strlit(")");
        }
        let mut out = String::new();
        out.append("(");
        append_dec_i32(&mut out, self.q);
        out.append(":");
        append_dec_i32(&mut out, self.r);
        out.append(")");
        proof {
            assert(out@ =~= key_of(self.q as int, self.r as int));
        }
        out
    }
}

} // verus!
