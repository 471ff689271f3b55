//! Building text: characters, decimal digits of integers.
use vstd::prelude::*;
use vstd::string::StringSliceAdditionalSpecFns;

verus! {

pub open spec fn digit_char(d: int) -> char {
    if d == 0 {
        '0'
    } else if d == 1 {
        '1'
    } else if d == 2 {
        '2'
    } else if d == 3 {
        '3'
    } else if d == 4 {
        '4'
    } else if d == 5 {
        '5'
    } else if d == 6 {
        '6'
    } else if d == 7 {
        '7'
    } else if d == 8 {
        '8'
    } else {
        '9'
    }
}

/// The decimal digits of `n`, without leading zeros (`0` is written as one digit).
pub open spec fn digits(n: nat) -> Seq<char>
    decreases n,
{
    if n < 10 {
        seq![digit_char(n as int)]
    } else {
        digits(n / 10).push(digit_char((n % 10) as int))
    }
}

pub open spec fn zeros(k: nat) -> Seq<char>
    decreases k,
{
    if k == 0 {
        seq![]
    } else {
        zeros((k - 1) as nat).push('0')
    }
}

/// The digits of `n`, padded with leading zeros to at least `width` characters.
pub open spec fn padded(n: nat, width: nat) -> Seq<char> {
    if digits(n).len() >= width {
        digits(n)
    } else {
        zeros((width - digits(n).len()) as nat) + digits(n)
    }
}

/// The signed decimal text of an integer (`-12`).
pub open spec fn int_text(n: int) -> Seq<char> {
    if n < 0 {
        seq!['-'] + digits((-n) as nat)
    } else {
        digits(n as nat)
    }
}

/// Whether `s` holds `c`.
pub open spec fn holds(s: Seq<char>, c: char) -> bool {
    exists|i: int| 0 <= i < s.len() && s[i] == c
}

/// The first position of `c` in `s`, where `s` holds it.
pub open spec fn first_index(s: Seq<char>, c: char) -> int {
    choose|k: int| 0 <= k < s.len() && s[k] == c && forall|j: int| 0 <= j < k ==> s[j] != c
}

/// `String::push`.
#[verifier::external_body]
pub fn push_char(s: &mut String, c: char)
    ensures
        final(s)@ == old(s)@.push(c),
{
    s.push(c);
}

pub fn digit(d: u64) -> (c: char)
    requires
        d < 10,
    ensures
        c == digit_char(d as int),
{
    if d == 0 {
        '0'
    } else if d == 1 {
        '1'
    } else if d == 2 {
        '2'
    } else if d == 3 {
        '3'
    } else if d == 4 {
        '4'
    } else if d == 5 {
        '5'
    } else if d == 6 {
        '6'
    } else if d == 7 {
        '7'
    } else if d == 8 {
        '8'
    } else {
        '9'
    }
}

/// The digits of `n`.
pub fn digits_of(n: u64) -> (r: Vec<char>)
    ensures
        r@ == digits(n as nat),
    decreases n,
{
    if n < 10 {
        let mut v = Vec::new();
        v.push(digit(n));
        v
    } else {
        let mut v = digits_of(n / 10);
        v.push(digit(n % 10));
        v
    }
}

/// Append the digits of `n`, padded with zeros to at least `width` characters.
pub fn push_padded(s: &mut String, n: u64, width: usize)
    ensures
        final(s)@ == old(s)@ + padded(n as nat, width as nat),
{
    let ds = digits_of(n);
    let ghost start = s@;
    if ds.len() < width {
        let k = width - ds.len();
        let mut i: usize = 0;
        while i < k
            invariant
                i <= k,
                s@ == start + zeros(i as nat),
            decreases k - i,
        {
            push_char(s, '0');
            i = i + 1;
        }
    }
    let ghost mid = s@;
    let mut j: usize = 0;
    while j < ds.len()
        invariant
            j <= ds.len(),
            ds@ == digits(n as nat),
            s@ == mid + ds@.subrange(0, j as int),
        decreases ds.len() - j,
    {
        push_char(s, ds[j]);
        j = j + 1;
        assert(ds@.subrange(0, j as int) =~= ds@.subrange(0, (j - 1) as int).push(ds@[j - 1]));
    }
    assert(ds@.subrange(0, ds.len() as int) =~= ds@);
    if ds.len() < width {
        assert(s@ =~= start + (zeros((width - ds.len()) as nat) + digits(n as nat)));
    } else {
        assert(s@ =~= start + digits(n as nat));
    }
}

/// Append the signed decimal text of `n`.
pub fn push_int(s: &mut String, n: i64)
    ensures
        final(s)@ == old(s)@ + int_text(n as int),
{
    if n < 0 {
        push_char(s, '-');
        let ghost after_sign = s@;
        let magnitude: u64 = if n == i64::MIN {
            9_223_372_036_854_775_808u64
        } else {
            (-n) as u64
        };
        push_padded(s, magnitude, 0);
        assert(s@ =~= old(s)@ + (seq!['-'] + digits((-n) as nat)));
    } else {
        push_padded(s, n as u64, 0);
    }
}

/// Whether two texts are the same.
pub fn text_eq(a: &str, b: &str) -> (r: bool)
    ensures
        r == (a@ == b@),
{
    let n = a.unicode_len();
    if n != b.unicode_len() {
        return false;
    }
    let mut i: usize = 0;
    while i < n
        invariant
            n == a@.len(),
            n == b@.len(),
            i <= n,
            forall|j: int| 0 <= j < i ==> a@[j] == b@[j],
        decreases n - i,
    {
        if a.get_char(i) != b.get_char(i) {
            return false;
        }
        i = i + 1;
    }
    assert(a@ =~= b@);
    true
}

} // verus!
