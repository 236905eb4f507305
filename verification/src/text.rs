use vstd::prelude::*;

verus! {

/// ASCII lower-casing of one character, as `char::to_ascii_lowercase` does it.
pub open spec fn ascii_lower_char(c: char) -> char {
    if 'A' <= c && c <= 'Z' {
        ((c as u32) + 32) as char
    } else {
        c
    }
}

/// ASCII lower-casing of a text: every ASCII capital letter is replaced by
/// its small letter, everything else is kept.
pub open spec fn ascii_lower(s: Seq<char>) -> Seq<char> {
    s.map_values(|c: char| ascii_lower_char(c))
}

/// The characters of a text, in order.
pub fn text_chars(s: &str) -> (v: Vec<char>)
    ensures
        v@ == s@,
{
    let mut v: Vec<char> = Vec::new();
    for c in it: s.chars()
        invariant
            it.seq() == s@,
            v@ == it.seq().take(it.index() as int),
    {
        v.push(c);
    }
    v
}

/// Whether a character lower-cases (in the ASCII sense) to `t`.
pub fn lower_is(c: char, t: char) -> (r: bool)
    ensures
        r == (ascii_lower_char(c) == t),
{
    if 'A' <= c && c <= 'Z' {
        (c as u32) + 32 == (t as u32)
    } else {
        c == t
    }
}

/// Whether `s`, lower-cased in the ASCII sense, is the text `t`.
pub fn lower_equals(s: &Vec<char>, t: &Vec<char>) -> (r: bool)
    ensures
        r == (ascii_lower(s@) == t@),
{
    if s.len() != t.len() {
        assert(ascii_lower(s@).len() != t@.len());
        return false;
    }
    let mut i: usize = 0;
    while i < s.len()
        invariant
            s.len() == t.len(),
            i <= s.len(),
            forall|j: int| 0 <= j < i ==> ascii_lower_char(#[trigger] s@[j]) == t@[j],
        decreases s.len() - i,
    {
        if !lower_is(s[i], t[i]) {
            assert(ascii_lower(s@)[i as int] != t@[i as int]);
            return false;
        }
        i = i + 1;
    }
    assert(ascii_lower(s@) =~= t@);
    true
}


/// Whether a character is one of the ASCII digits `0` to `9`.
pub open spec fn is_ascii_digit(c: char) -> bool {
    '0' <= c && c <= '9'
}

/// Whether a text is a non-empty run of ASCII digits.
pub open spec fn is_digits(s: Seq<char>) -> bool {
    s.len() > 0 && forall|i: int| 0 <= i < s.len() ==> is_ascii_digit(#[trigger] s[i])
}

/// The number that a run of ASCII digits writes in base ten.
pub open spec fn decimal_value(s: Seq<char>) -> int
    decreases s.len(),
{
    if s.len() == 0 {
        0
    } else {
        decimal_value(s.drop_last()) * 10 + ((s.last() as u32) - ('0' as u32))
    }
}

/// A longer run of digits never writes a smaller number than its prefix.
pub proof fn lemma_decimal_prefix_le(s: Seq<char>, i: int)
    requires
        0 <= i <= s.len(),
        forall|j: int| 0 <= j < s.len() ==> is_ascii_digit(#[trigger] s[j]),
    ensures
        0 <= decimal_value(s.take(i)) <= decimal_value(s),
    decreases s.len() - i,
{
    if i == s.len() {
        assert(s.take(i) =~= s);
        lemma_decimal_nonneg(s);
    } else {
        lemma_decimal_prefix_le(s, i + 1);
        assert(s.take(i + 1).drop_last() =~= s.take(i));
        lemma_decimal_nonneg(s.take(i));
    }
}

/// A run of digits writes a number that is not negative.
pub proof fn lemma_decimal_nonneg(s: Seq<char>)
    requires
        forall|j: int| 0 <= j < s.len() ==> is_ascii_digit(#[trigger] s[j]),
    ensures
        decimal_value(s) >= 0,
    decreases s.len(),
{
    if s.len() > 0 {
        assert(is_ascii_digit(s[s.len() - 1]));
        lemma_decimal_nonneg(s.drop_last());
    }
}

/// Reads a non-empty run of ASCII digits as an `i32`, as `str::parse::<i32>`
/// does on such a text: `None` where the number does not fit.
pub fn parse_i32_digits(s: &Vec<char>) -> (r: Option<i32>)
    requires
        is_digits(s@),
    ensures
        r == (if decimal_value(s@) <= i32::MAX { Some(decimal_value(s@) as i32) } else { None::<i32> }),
{
    let mut acc: i64 = 0;
    let mut i: usize = 0;
    proof {
        assert(s@.take(0) =~= Seq::<char>::empty());
    }
    while i < s.len()
        invariant
            is_digits(s@),
            i <= s.len(),
            acc == decimal_value(s@.take(i as int)),
            0 <= acc <= i32::MAX,
        decreases s.len() - i,
    {
        let c = s[i];
        assert(is_ascii_digit(s@[i as int]));
        let d: i64 = ((c as u32) - ('0' as u32)) as i64;
        assert(s@.take(i as int + 1).drop_last() =~= s@.take(i as int));
        acc = acc * 10 + d;
        i = i + 1;
        if acc > 2147483647 {
            proof {
                lemma_decimal_prefix_le(s@, i as int);
            }
            return None;
        }
    }
    assert(s@.take(s@.len() as int) =~= s@);
    Some(acc as i32)
}

/// Whether every character of a text is an ASCII digit (and there is one).
pub fn all_digits(s: &Vec<char>) -> (r: bool)
    ensures
        r == is_digits(s@),
{
    if s.len() == 0 {
        return false;
    }
    let mut i: usize = 0;
    while i < s.len()
        invariant
            i <= s.len(),
            forall|j: int| 0 <= j < i ==> is_ascii_digit(#[trigger] s@[j]),
        decreases s.len() - i,
    {
        if !('0' <= s[i] && s[i] <= '9') {
            return false;
        }
        i = i + 1;
    }
    true
}

/// Whether a vector of characters spells the text `lit`.
pub fn chars_equal(v: &Vec<char>, lit: &str) -> (r: bool)
    ensures
        r == (v@ == lit@),
{
    let l = text_chars(lit);
    if v.len() != l.len() {
        return false;
    }
    let mut i: usize = 0;
    while i < v.len()
        invariant
            v.len() == l.len(),
            l@ == lit@,
            i <= v.len(),
            forall|j: int| 0 <= j < i ==> v@[j] == l@[j],
        decreases v.len() - i,
    {
        if v[i] != l[i] {
            return false;
        }
        i = i + 1;
    }
    assert(v@ =~= l@);
    true
}

/// The part of `path` between `prefix` and `suffix`, when `path` is
/// `prefix`, some text, and `suffix`, in that order.
pub open spec fn between(path: Seq<char>, prefix: Seq<char>, suffix: Seq<char>) -> Option<Seq<char>> {
    if path.len() >= prefix.len() + suffix.len()
        && path.take(prefix.len() as int) == prefix
        && path.skip(path.len() - suffix.len()) == suffix
    {
        Some(path.subrange(prefix.len() as int, path.len() - suffix.len()))
    } else {
        None
    }
}

/// Cuts `prefix` and `suffix` off `path`, as `between` says.
pub fn cut_between(path: &Vec<char>, prefix: &str, suffix: &str) -> (r: Option<Vec<char>>)
    ensures
        match r {
            Some(m) => between(path@, prefix@, suffix@) == Some(m@),
            None => between(path@, prefix@, suffix@) is None,
        },
{
    let p = text_chars(prefix);
    let s = text_chars(suffix);
    if path.len() < p.len() || path.len() - p.len() < s.len() {
        return None;
    }
    let mut i: usize = 0;
    while i < p.len()
        invariant
            p@ == prefix@,
            p.len() <= path.len(),
            i <= p.len(),
            forall|j: int| 0 <= j < i ==> path@[j] == p@[j],
        decreases p.len() - i,
    {
        if path[i] != p[i] {
            assert(path@.take(p.len() as int)[i as int] != p@[i as int]);
            return None;
        }
        i = i + 1;
    }
    assert(path@.take(p.len() as int) =~= p@);
    let start = path.len() - s.len();
    let mut k: usize = 0;
    while k < s.len()
        invariant
            s@ == suffix@,
            start == path.len() - s.len(),
            k <= s.len(),
            forall|j: int| 0 <= j < k ==> path@[start + j] == s@[j],
        decreases s.len() - k,
    {
        if path[start + k] != s[k] {
            assert(path@.skip(start as int)[k as int] != s@[k as int]);
            return None;
        }
        k = k + 1;
    }
    assert(path@.skip(start as int) =~= s@);
    let mut m: Vec<char> = Vec::new();
    let mut j: usize = p.len();
    while j < start
        invariant
            p.len() <= j <= start,
            start <= path.len(),
            m@ == path@.subrange(p.len() as int, j as int),
        decreases start - j,
    {
        m.push(path[j]);
        j = j + 1;
        assert(m@ =~= path@.subrange(p.len() as int, j as int));
    }
    Some(m)
}


/// The ASCII digit that writes `d`, for `d` below ten.
pub open spec fn digit_char(d: int) -> char {
    ((d + ('0' as u32)) as u32) as char
}

/// The base-ten text of a natural number, without leading zeros.
pub open spec fn nat_text(n: nat) -> Seq<char>
    decreases n,
{
    if n < 10 {
        seq![digit_char(n as int)]
    } else {
        nat_text(n / 10).push(digit_char((n % 10) as int))
    }
}

/// The base-ten text of an integer, as `i32`'s `Display` writes it.
pub open spec fn int_text(i: int) -> Seq<char> {
    if i < 0 {
        seq!['-'] + nat_text((-i) as nat)
    } else {
        nat_text(i as nat)
    }
}

fn digit_str(d: u64) -> (r: &'static str)
    requires
        d < 10,
    ensures
        r@ == seq![digit_char(d as int)],
{
    proof {
        reveal_strlit("0"); reveal_strlit("1"); reveal_strlit("2"); reveal_strlit("3");
        reveal_strlit("4"); reveal_strlit("5"); reveal_strlit("6"); reveal_strlit("7");
        reveal_strlit("8"); reveal_strlit("9");
    }
    if d == 0 { "0" } else if d == 1 { "1" } else if d == 2 { "2" } else if d == 3 { "3" }
    else if d == 4 { "4" } else if d == 5 { "5" } else if d == 6 { "6" } else if d == 7 { "7" }
    else if d == 8 { "8" } else { "9" }
}

fn nat_to_string(n: u64) -> (r: String)
    ensures
        r@ == nat_text(n as nat),
    decreases n,
{
    if n < 10 {
        let mut s = String::new();
        s.append(digit_str(n));
        s
    } else {
        let mut s = nat_to_string(n / 10);
        s.append(digit_str(n % 10));
        s
    }
}

/// Writes an `i32` in base ten, as its `Display` does.
pub fn i32_to_string(i: i32) -> (r: String)
    ensures
        r@ == int_text(i as int),
{
    if i < 0 {
        let n: u64 = (-(i as i64)) as u64;
        let mut s = String::new();
        s.append("-");
        let t = nat_to_string(n);
        s.append(t.as_str());
        proof { reveal_strlit("-"); }
        s
    } else {
        nat_to_string(i as u64)
    }
}


/// `a` followed by `b`.
pub fn cat(a: String, b: &str) -> (r: String)
    ensures
        r@ == a@ + b@,
{
    let mut s = a;
    s.append(b);
    s
}

}
