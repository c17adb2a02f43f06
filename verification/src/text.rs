//! Character-level helpers on strings. Contracts speak of a string through
//! its view, the sequence of its characters.

use vstd::prelude::*;

verus! {

/// `String::push` appends one character to the string and changes nothing
/// else, as its documentation says.
pub assume_specification[ String::push ](s: &mut String, c: char)
    ensures
        final(s)@ == old(s)@.push(c),
;

/// The characters of `s`, in order.
pub fn chars_of(s: &str) -> (out: Vec<char>)
    ensures
        out@ == s@,
{
    let mut out: Vec<char> = Vec::new();
    for c in it: s.chars()
        invariant
            out@ == it.seq().take(it.index() as int),
            it.seq() == s@,
    {
        out.push(c);
    }
    out
}

/// Whether two strings hold the same characters.
pub fn same_text(a: &str, b: &str) -> (same: bool)
    ensures
        same == (a@ == b@),
{
    let x = chars_of(a);
    let y = chars_of(b);
    if x.len() != y.len() {
        return false;
    }
    let mut i: usize = 0;
    while i < x.len()
        invariant
            i <= x.len(),
            x.len() == y.len(),
            x@ == a@,
            y@ == b@,
            forall|j: int| 0 <= j < i ==> x@[j] == y@[j],
        decreases x.len() - i,
    {
        if x[i] != y[i] {
            return false;
        }
        i += 1;
    }
    proof {
        assert(x@ =~= y@);
    }
    true
}

/// Whether `s` begins with `prefix`.
pub fn has_prefix(s: &Vec<char>, prefix: &Vec<char>) -> (found: bool)
    ensures
        found == prefix@.is_prefix_of(s@),
{
    if prefix.len() > s.len() {
        return false;
    }
    let mut i: usize = 0;
    while i < prefix.len()
        invariant
            i <= prefix.len() <= s.len(),
            forall|j: int| 0 <= j < i ==> s@[j] == prefix@[j],
        decreases prefix.len() - i,
    {
        if s[i] != prefix[i] {
            proof {
                assert(s@.subrange(0, prefix@.len() as int)[i as int] == s@[i as int]);
            }
            return false;
        }
        i += 1;
    }
    proof {
        assert(prefix@ =~= s@.subrange(0, prefix@.len() as int));
    }
    true
}

/// Whether `c` occurs in `s`.
pub fn has_char(s: &Vec<char>, c: char) -> (found: bool)
    ensures
        found == s@.contains(c),
{
    let mut i: usize = 0;
    while i < s.len()
        invariant
            i <= s.len(),
            forall|j: int| 0 <= j < i ==> s@[j] != c,
        decreases s.len() - i,
    {
        if s[i] == c {
            return true;
        }
        i += 1;
    }
    false
}

/// The characters with the Unicode property White_Space.
pub open spec fn is_whitespace(c: char) -> bool {
    let u = c as u32;
    ||| 0x09 <= u <= 0x0D
    ||| u == 0x20
    ||| u == 0x85
    ||| u == 0xA0
    ||| u == 0x1680
    ||| 0x2000 <= u <= 0x200A
    ||| u == 0x2028
    ||| u == 0x2029
    ||| u == 0x202F
    ||| u == 0x205F
    ||| u == 0x3000
}

/// Some character of `s` is whitespace.
pub open spec fn has_whitespace(s: Seq<char>) -> bool {
    exists|i: int| 0 <= i < s.len() && is_whitespace(s[i])
}

/// Whether `c` is a whitespace character.
pub fn whitespace(c: char) -> (white: bool)
    ensures
        white == is_whitespace(c),
{
    let u: u32 = c as u32;
    (0x09 <= u && u <= 0x0D) || u == 0x20 || u == 0x85 || u == 0xA0 || u == 0x1680 || (0x2000 <= u
        && u <= 0x200A) || u == 0x2028 || u == 0x2029 || u == 0x202F || u == 0x205F || u == 0x3000
}

/// Whether some character of `s` is whitespace.
pub fn any_whitespace(s: &Vec<char>) -> (found: bool)
    ensures
        found == has_whitespace(s@),
{
    let mut i: usize = 0;
    while i < s.len()
        invariant
            i <= s.len(),
            forall|j: int| 0 <= j < i ==> !is_whitespace(s@[j]),
        decreases s.len() - i,
    {
        if whitespace(s[i]) {
            return true;
        }
        i += 1;
    }
    false
}

/// `s` with a backslash put before each occurrence of `special`.
pub open spec fn escaped(s: Seq<char>, special: char) -> Seq<char>
    decreases s.len(),
{
    if s.len() == 0 {
        Seq::empty()
    } else if s.last() == special {
        escaped(s.drop_last(), special).push('\\').push(special)
    } else {
        escaped(s.drop_last(), special).push(s.last())
    }
}

/// Appends to `out` the text `s` with a backslash before each `special`.
pub fn push_escaped(out: &mut String, s: &str, special: char)
    ensures
        final(out)@ == old(out)@ + escaped(s@, special),
{
    for c in it: s.chars()
        invariant
            it.seq() == s@,
            out@ == old(out)@ + escaped(s@.take(it.index() as int), special),
    {
        proof {
            let k = it.index() as int;
            assert(s@.take(k + 1).drop_last() =~= s@.take(k));
            assert(s@.take(k + 1).last() == c);
        }
        if c == special {
            out.push('\\');
        }
        out.push(c);
    }
    proof {
        assert(s@.take(s@.len() as int) =~= s@);
    }
}

/// The decimal digit for `d`, which must be below ten.
pub open spec fn digit(d: nat) -> char {
    ((d + 48) as u8) as char
}

/// `n` written in decimal, without leading zeros.
pub open spec fn decimal(n: nat) -> Seq<char>
    decreases n,
{
    if n < 10 {
        seq![digit(n)]
    } else {
        decimal(n / 10).push(digit(n % 10))
    }
}

/// Appends `n`, written in decimal, to `out`.
pub fn push_decimal(out: &mut String, n: usize)
    ensures
        final(out)@ == old(out)@ + decimal(n as nat),
{
    let mut digits: Vec<char> = Vec::new();
    let mut rest: usize = n;
    while rest >= 10
        invariant
            decimal(n as nat) == decimal(rest as nat) + digits@.reverse(),
        decreases rest,
    {
        let d: u8 = (rest % 10) as u8;
        proof {
            assert(decimal(rest as nat) == decimal((rest / 10) as nat).push(digit((rest % 10) as nat)));
            assert(digits@.push((d + 48) as char).reverse() =~= seq![(d + 48) as char]
                + digits@.reverse());
            assert(decimal((rest / 10) as nat).push(digit((rest % 10) as nat)) + digits@.reverse()
                =~= decimal((rest / 10) as nat) + (seq![digit((rest % 10) as nat)]
                + digits@.reverse()));
        }
        digits.push((d + 48) as char);
        rest = rest / 10;
    }
    let d: u8 = rest as u8;
    out.push((d + 48) as char);
    let ghost start = out@;
    let mut i: usize = digits.len();
    while i > 0
        invariant
            i <= digits.len(),
            out@ == start + digits@.reverse().take(digits.len() - i),
        decreases i,
    {
        i -= 1;
        out.push(digits[i]);
        proof {
            let r = digits@.reverse();
            let k = digits.len() - i;
            assert(r.take(k) =~= r.take(k - 1).push(r[k - 1]));
            assert(r[k - 1] == digits@[i as int]);
        }
    }
    proof {
        assert(digits@.reverse().take(digits.len() as int) =~= digits@.reverse());
        assert(start =~= old(out)@ + decimal(rest as nat));
        assert(out@ =~= old(out)@ + decimal(n as nat));
    }
}

} // verus!
