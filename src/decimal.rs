use vstd::prelude::*;
use vstd::string::StringExecFns;

verus! {

/// The character of a decimal digit.
pub open spec fn digit_char(d: nat) -> char {
    if d == 0 { '0' } else if d == 1 { '1' } else if d == 2 { '2' } else if d == 3 { '3' }
    else if d == 4 { '4' } else if d == 5 { '5' } else if d == 6 { '6' } else if d == 7 { '7' }
    else if d == 8 { '8' } else { '9' }
}

pub open spec fn is_digit(c: char) -> bool {
    '0' <= c && c <= '9'
}

/// The decimal digits of a natural number, most significant first, without leading zeros.
pub open spec fn digits_of(n: nat) -> Seq<char>
    decreases n,
{
    if n < 10 {
        seq![digit_char(n)]
    } else {
        digits_of(n / 10).push(digit_char(n % 10))
    }
}

/// The decimal text of an integer: a minus sign for negative values, then the digits.
pub open spec fn int_text(i: int) -> Seq<char> {
    if i < 0 {
        seq!['-'] + digits_of((-i) as nat)
    } else {
        digits_of(i as nat)
    }
}

/// `k` zero characters.
pub open spec fn zeros(k: nat) -> Seq<char> {
    Seq::new(k, |i: int| '0')
}

/// The text of the non-negative value `d * 10^e`, where `d` is a digit string.
pub open spec fn scaled_digits(d: Seq<char>, e: int) -> Seq<char> {
    if e >= 0 {
        d + zeros(e as nat)
    } else if d.len() > -e {
        d.subrange(0, d.len() + e) + seq!['.'] + d.subrange(d.len() + e, d.len() as int)
    } else {
        seq!['0', '.'] + zeros((-e - d.len()) as nat) + d
    }
}

/// The literal text of the value `m * 10^e`: `0` for a zero mantissa, otherwise a sign for
/// negative values and the digits of `|m|` with the decimal point placed by `e`.
pub open spec fn decimal_text(m: int, e: int) -> Seq<char> {
    if m == 0 {
        seq!['0']
    } else if m < 0 {
        seq!['-'] + scaled_digits(digits_of((-m) as nat), e)
    } else {
        scaled_digits(digits_of(m as nat), e)
    }
}

/// A decimal number `mantissa * 10^exponent`, as it is written into a script.
#[derive(Clone, Copy, Debug, PartialEq, Eq, Structural)]
pub struct Decimal {
    pub mantissa: i64,
    pub exponent: i32,
}

impl Decimal {
    /// The literal text of this number.
    pub open spec fn text(self) -> Seq<char> {
        decimal_text(self.mantissa as int, self.exponent as int)
    }

    pub fn new(mantissa: i64, exponent: i32) -> (r: Decimal)
        ensures
            r.mantissa == mantissa,
            r.exponent == exponent,
    {
        Decimal { mantissa, exponent }
    }

    pub open spec fn zero() -> Decimal {
        Decimal { mantissa: 0, exponent: 0 }
    }

    /// The number `value * 10^0`.
    pub fn from_int(value: i64) -> (r: Decimal)
        ensures
            r.mantissa == value,
            r.exponent == 0,
    {
        Decimal { mantissa: value, exponent: 0 }
    }

    /// Appends the literal text of this number.
    pub fn write_to(&self, buf: &mut String)
        ensures
            final(buf)@ == old(buf)@ + self.text(),
    {
        push_decimal(buf, self.mantissa, self.exponent);
    }

    /// The literal text of this number.
    pub fn to_text(&self) -> (r: String)
        ensures
            r@ == self.text(),
    {
        let mut s = String::new();
        self.write_to(&mut s);
        proof {
            assert(s@ =~= self.text());
        }
        s
    }
}

fn digit(d: u64) -> (c: char)
    requires
        d < 10,
    ensures
        c == digit_char(d as nat),
        is_digit(c),
{
    if d == 0 { '0' } else if d == 1 { '1' } else if d == 2 { '2' } else if d == 3 { '3' }
    else if d == 4 { '4' } else if d == 5 { '5' } else if d == 6 { '6' } else if d == 7 { '7' }
    else if d == 8 { '8' } else { '9' }
}

fn digit_str(c: char) -> (r: &'static str)
    requires
        is_digit(c),
    ensures
        r@ == seq![c],
{
    proof {
        reveal_strlit("0");
        reveal_strlit("1");
        reveal_strlit("2");
        reveal_strlit("3");
        reveal_strlit("4");
        reveal_strlit("5");
        reveal_strlit("6");
        reveal_strlit("7");
        reveal_strlit("8");
        reveal_strlit("9");
    }
    if c == '0' { "0" } else if c == '1' { "1" } else if c == '2' { "2" } else if c == '3' { "3" }
    else if c == '4' { "4" } else if c == '5' { "5" } else if c == '6' { "6" } else if c == '7' { "7" }
    else if c == '8' { "8" } else { "9" }
}

/// The decimal digits of `n`.
fn digit_chars(n: u64) -> (v: Vec<char>)
    ensures
        v@ == digits_of(n as nat),
        forall|i: int| 0 <= i < v@.len() ==> is_digit(#[trigger] v@[i]),
    decreases n,
{
    if n >= 10 {
        let mut v = digit_chars(n / 10);
        v.push(digit(n % 10));
        v
    } else {
        vec![digit(n)]
    }
}

/// Appends the digit characters `cs[lo..hi]`.
fn push_digit_range(buf: &mut String, cs: &Vec<char>, lo: usize, hi: usize)
    requires
        lo <= hi <= cs@.len(),
        forall|i: int| 0 <= i < cs@.len() ==> is_digit(#[trigger] cs@[i]),
    ensures
        final(buf)@ == old(buf)@ + cs@.subrange(lo as int, hi as int),
{
    let mut i = lo;
    while i < hi
        invariant
            lo <= i <= hi <= cs@.len(),
            forall|j: int| 0 <= j < cs@.len() ==> is_digit(#[trigger] cs@[j]),
            buf@ == old(buf)@ + cs@.subrange(lo as int, i as int),
        decreases hi - i,
    {
        buf.append(digit_str(cs[i]));
        assert(cs@.subrange(lo as int, i + 1) =~= cs@.subrange(lo as int, i as int) + seq![cs@[i as int]]);
        i = i + 1;
    }
}

/// Appends `k` zero characters.
fn push_zeros(buf: &mut String, k: u64)
    ensures
        final(buf)@ == old(buf)@ + zeros(k as nat),
{
    let mut i: u64 = 0;
    while i < k
        invariant
            i <= k,
            buf@ == old(buf)@ + zeros(i as nat),
        decreases k - i,
    {
        proof {
            reveal_strlit("0");
        }
        buf.append("0");
        assert(zeros((i + 1) as nat) =~= zeros(i as nat) + seq!['0']);
        i = i + 1;
    }
}

/// Appends the decimal text of an integer.
pub fn push_int(buf: &mut String, i: i64)
    ensures
        final(buf)@ == old(buf)@ + int_text(i as int),
{
    proof {
        reveal_strlit("-");
    }
    let mag: u64 = if i < 0 {
        buf.append("-");
        (0 - (i as i128)) as u64
    } else {
        i as u64
    };
    let ds = digit_chars(mag);
    push_digit_range(buf, &ds, 0, ds.len());
    assert(ds@.subrange(0, ds@.len() as int) =~= ds@);
}

/// Appends the digit string `ds` scaled by `10^e`.
fn push_scaled_digits(buf: &mut String, ds: &Vec<char>, e: i32)
    requires
        forall|i: int| 0 <= i < ds@.len() ==> is_digit(#[trigger] ds@[i]),
    ensures
        final(buf)@ == old(buf)@ + scaled_digits(ds@, e as int),
{
    let len = ds.len();
    let ghost d = ds@;
    assert(d.subrange(0, len as int) =~= d);
    if e >= 0 {
        push_digit_range(buf, ds, 0, len);
        push_zeros(buf, e as u64);
        assert(buf@ =~= old(buf)@ + scaled_digits(d, e as int));
    } else {
        let k: u64 = (0 - (e as i64)) as u64;
        if (len as u64) > k {
            let cut: usize = len - (k as usize);
            push_digit_range(buf, ds, 0, cut);
            proof {
                reveal_strlit(".");
            }
            buf.append(".");
            push_digit_range(buf, ds, cut, len);
            assert(buf@ =~= old(buf)@ + scaled_digits(d, e as int));
        } else {
            proof {
                reveal_strlit("0.");
            }
            buf.append("0.");
            push_zeros(buf, k - (len as u64));
            push_digit_range(buf, ds, 0, len);
            assert(buf@ =~= old(buf)@ + scaled_digits(d, e as int));
        }
    }
}

/// Appends the literal text of `m * 10^e`.
pub fn push_decimal(buf: &mut String, m: i64, e: i32)
    ensures
        final(buf)@ == old(buf)@ + decimal_text(m as int, e as int),
{
    proof {
        reveal_strlit("0");
        reveal_strlit("-");
    }
    if m == 0 {
        buf.append("0");
        return;
    }
    let mag: u64 = if m < 0 {
        buf.append("-");
        (0 - (m as i128)) as u64
    } else {
        m as u64
    };
    let ds = digit_chars(mag);
    push_scaled_digits(buf, &ds, e);
    assert(buf@ =~= old(buf)@ + decimal_text(m as int, e as int));
}

} // verus!
