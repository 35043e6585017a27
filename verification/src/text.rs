//! Character-level text handling used by the sysfs and DMI logic:
//! comparison, prefix and substring search, whitespace trimming and the
//! decimal/hexadecimal number syntax of `str::parse` and `from_str_radix`.
use vstd::prelude::*;

verus! {

/// The characters of `s`, in order.
pub fn chars_of(s: &str) -> (v: Vec<char>)
    ensures
        v@ == s@,
{
    let n = s.unicode_len();
    let mut v: Vec<char> = Vec::new();
    let mut i: usize = 0;
    while i < n
        invariant
            n == s@.len(),
            i <= n,
            v@ == s@.subrange(0, i as int),
        decreases n - i,
    {
        let c = s.get_char(i);
        v.push(c);
        i = i + 1;
        assert(v@ =~= s@.subrange(0, i as int));
    }
    assert(v@ =~= s@);
    v
}

/// Whether two strings hold the same characters.
pub fn str_eq(a: &str, b: &str) -> (r: bool)
    ensures
        r == (a@ == b@),
{
    let va = chars_of(a);
    let vb = chars_of(b);
    if va.len() != vb.len() {
        return false;
    }
    let mut i: usize = 0;
    while i < va.len()
        invariant
            va@ == a@,
            vb@ == b@,
            va.len() == vb.len(),
            i <= va.len(),
            forall|k: int| 0 <= k < i ==> va@[k] == vb@[k],
        decreases va.len() - i,
    {
        if va[i] != vb[i] {
            return false;
        }
        i = i + 1;
    }
    assert(va@ =~= vb@);
    true
}


/// The characters that `char::is_whitespace` accepts (Unicode White_Space).
pub open spec fn is_ws(c: char) -> bool {
    ||| ('\u{9}' <= c && c <= '\u{d}')
    ||| c == ' '
    ||| c == '\u{85}'
    ||| c == '\u{a0}'
    ||| c == '\u{1680}'
    ||| ('\u{2000}' <= c && c <= '\u{200a}')
    ||| c == '\u{2028}'
    ||| c == '\u{2029}'
    ||| c == '\u{202f}'
    ||| c == '\u{205f}'
    ||| c == '\u{3000}'
}

pub open spec fn trim_start(s: Seq<char>) -> Seq<char>
    decreases s.len(),
{
    if s.len() > 0 && is_ws(s[0]) {
        trim_start(s.drop_first())
    } else {
        s
    }
}

pub open spec fn trim_end(s: Seq<char>) -> Seq<char>
    decreases s.len(),
{
    if s.len() > 0 && is_ws(s.last()) {
        trim_end(s.drop_last())
    } else {
        s
    }
}

/// What `str::trim` keeps of `s`.
pub open spec fn trim(s: Seq<char>) -> Seq<char> {
    trim_end(trim_start(s))
}

pub fn is_whitespace(c: char) -> (r: bool)
    ensures
        r == is_ws(c),
{
    ('\u{9}' <= c && c <= '\u{d}') || c == ' ' || c == '\u{85}' || c == '\u{a0}' || c == '\u{1680}'
        || ('\u{2000}' <= c && c <= '\u{200a}') || c == '\u{2028}' || c == '\u{2029}' || c
        == '\u{202f}' || c == '\u{205f}' || c == '\u{3000}'
}

/// The positions in `s` where its text without surrounding whitespace starts and ends.
pub fn trim_bounds(s: &str) -> (r: (usize, usize))
    ensures
        r.0 <= r.1 <= s@.len(),
        s@.subrange(r.0 as int, r.1 as int) == trim(s@),
{
    let v = chars_of(s);
    let n = v.len();
    let mut i: usize = 0;
    assert(s@.subrange(0, n as int) =~= s@);
    while i < n && is_whitespace(v[i])
        invariant
            v@ == s@,
            n == v@.len(),
            i <= n,
            trim_start(s@) == trim_start(s@.subrange(i as int, n as int)),
        decreases n - i,
    {
        assert(s@.subrange(i as int, n as int).drop_first() =~= s@.subrange(i + 1, n as int));
        i = i + 1;
    }
    assert(trim_start(s@.subrange(i as int, n as int)) == s@.subrange(i as int, n as int));
    let mut j: usize = n;
    while j > i && is_whitespace(v[j - 1])
        invariant
            v@ == s@,
            n == v@.len(),
            i <= j <= n,
            trim(s@) == trim_end(s@.subrange(i as int, j as int)),
        decreases j,
    {
        assert(s@.subrange(i as int, j as int).drop_last() =~= s@.subrange(i as int, j - 1));
        j = j - 1;
    }
    (i, j)
}

/// `str::trim`: `s` without leading and trailing whitespace.
pub fn trim_str(s: &str) -> (t: &str)
    ensures
        t@ == trim(s@),
{
    let (i, j) = trim_bounds(s);
    s.substring_char(i, j)
}

/// The characters of `s` without leading and trailing whitespace.
pub fn trim_chars(s: &str) -> (t: Vec<char>)
    ensures
        t@ == trim(s@),
{
    chars_of(trim_str(s))
}

/// The value of `c` as a digit in `radix`, as `char::to_digit` gives it.
pub open spec fn digit_value(c: char, radix: nat) -> Option<nat> {
    let d: int = if '0' <= c && c <= '9' {
        (c as int) - ('0' as int)
    } else if 'a' <= c && c <= 'z' {
        (c as int) - ('a' as int) + 10
    } else if 'A' <= c && c <= 'Z' {
        (c as int) - ('A' as int) + 10
    } else {
        radix as int
    };
    if d < radix {
        Some(d as nat)
    } else {
        None
    }
}

pub open spec fn all_digits(s: Seq<char>, radix: nat) -> bool {
    forall|i: int| 0 <= i < s.len() ==> (#[trigger] digit_value(s[i], radix)) is Some
}

/// The number that the digit string `s` denotes in `radix`.
pub open spec fn digits_value(s: Seq<char>, radix: nat) -> nat
    decreases s.len(),
{
    if s.len() == 0 {
        0
    } else {
        let d: nat = match digit_value(s.last(), radix) {
            Some(d) => d,
            None => 0,
        };
        digits_value(s.drop_last(), radix) * radix + d
    }
}

/// What `from_str_radix` (and `str::parse`) gives for an unsigned integer
/// type whose largest value is `max`: an optional `+`, then at least one digit.
pub open spec fn parse_unsigned(s: Seq<char>, radix: nat, max: nat) -> Option<nat> {
    if s.len() == 0 {
        None
    } else {
        let d = if s[0] == '+' {
            s.drop_first()
        } else {
            s
        };
        if d.len() == 0 || !all_digits(d, radix) || digits_value(d, radix) > max {
            None
        } else {
            Some(digits_value(d, radix))
        }
    }
}

/// What `str::parse` gives for a signed integer type with range `min..=max`:
/// an optional sign, then at least one decimal digit.
pub open spec fn parse_signed(s: Seq<char>, min: int, max: int) -> Option<int> {
    if s.len() > 0 && s[0] == '-' {
        let d = s.drop_first();
        if d.len() == 0 || !all_digits(d, 10) || -(digits_value(d, 10) as int) < min {
            None
        } else {
            Some(-(digits_value(d, 10) as int))
        }
    } else {
        match parse_unsigned(s, 10, if max < 0 { 0 } else { max as nat }) {
            Some(v) => Some(v as int),
            None => None,
        }
    }
}

pub fn char_digit(c: char, radix: u32) -> (r: Option<u32>)
    requires
        2 <= radix <= 36,
    ensures
        match r {
            Some(d) => digit_value(c, radix as nat) == Some(d as nat),
            None => digit_value(c, radix as nat) is None,
        },
{
    let d: u32 = if '0' <= c && c <= '9' {
        (c as u32) - ('0' as u32)
    } else if 'a' <= c && c <= 'z' {
        (c as u32) - ('a' as u32) + 10
    } else if 'A' <= c && c <= 'Z' {
        (c as u32) - ('A' as u32) + 10
    } else {
        radix
    };
    if d < radix {
        Some(d)
    } else {
        None
    }
}

proof fn lemma_sat_step(p: nat, r: nat, d: nat, cap: nat)
    requires
        r >= 1,
    ensures
        min_nat(p * r + d, cap) == min_nat(min_nat(p, cap) * r + d, cap),
{
    if p > cap {
        assert(p * r >= cap * r) by (nonlinear_arith)
            requires
                p > cap,
                r >= 1,
        ;
        assert(cap * r >= cap) by (nonlinear_arith)
            requires
                r >= 1,
        ;
    }
}

pub open spec fn min_nat(a: nat, b: nat) -> nat {
    if a <= b {
        a
    } else {
        b
    }
}

/// Reads the digits `v[start..end]`; the value saturates at `max + 1`.
pub(crate) fn digits_saturating(v: &Vec<char>, start: usize, end: usize, radix: u32, max: u64) -> (r: Option<u64>)
    requires
        start <= end <= v.len(),
        2 <= radix <= 36,
        max < 0x1_0000_0000_0000,
    ensures
        match r {
            Some(x) => all_digits(v@.subrange(start as int, end as int), radix as nat) && x
                == min_nat(digits_value(v@.subrange(start as int, end as int), radix as nat), (max + 1) as nat),
            None => !all_digits(v@.subrange(start as int, end as int), radix as nat),
        },
{
    let mut acc: u64 = 0;
    let mut k: usize = start;
    assert(v@.subrange(start as int, start as int) =~= Seq::<char>::empty());
    while k < end
        invariant
            start <= k <= end <= v.len(),
            2 <= radix <= 36,
            max < 0x1_0000_0000_0000,
            all_digits(v@.subrange(start as int, k as int), radix as nat),
            acc == min_nat(digits_value(v@.subrange(start as int, k as int), radix as nat), (max + 1) as nat),
        decreases end - k,
    {
        let ghost pre = v@.subrange(start as int, k as int);
        let ghost cur = v@.subrange(start as int, k + 1);
        assert(cur.drop_last() =~= pre);
        assert(cur.last() == v@[k as int]);
        match char_digit(v[k], radix) {
            None => {
                assert(!all_digits(v@.subrange(start as int, end as int), radix as nat)) by {
                    assert(v@.subrange(start as int, end as int)[k - start] == v@[k as int]);
                }
                return None;
            },
            Some(d) => {
                proof {
                    lemma_sat_step(digits_value(pre, radix as nat), radix as nat, d as nat, (max + 1) as nat);
                }
                assert(acc * radix <= 0x1_0000_0000_0000 * 36) by (nonlinear_arith)
                    requires
                        acc <= max + 1,
                        max < 0x1_0000_0000_0000,
                        radix <= 36,
                ;
                let next: u64 = acc * (radix as u64) + (d as u64);
                acc = if next > max + 1 {
                    max + 1
                } else {
                    next
                };
                k = k + 1;
                assert forall|i: int| 0 <= i < cur.len() implies (#[trigger] digit_value(cur[i], radix as nat)) is Some by {
                    if i < pre.len() {
                        assert(cur[i] == pre[i]);
                    }
                }
            },
        }
    }
    Some(acc)
}

/// `from_str_radix` for an unsigned type whose largest value is `max`,
/// applied to `v[start..end]`.
pub(crate) fn parse_unsigned_range(v: &Vec<char>, start: usize, end: usize, radix: u32, max: u64) -> (r: Option<u64>)
    requires
        start <= end <= v.len(),
        2 <= radix <= 36,
        max < 0x1_0000_0000_0000,
    ensures
        match r {
            Some(x) => parse_unsigned(v@.subrange(start as int, end as int), radix as nat, max as nat) == Some(x as nat),
            None => parse_unsigned(v@.subrange(start as int, end as int), radix as nat, max as nat) is None,
        },
{
    let ghost s = v@.subrange(start as int, end as int);
    if start == end {
        return None;
    }
    let first = if v[start] == '+' {
        start + 1
    } else {
        start
    };
    assert(s[0] == v@[start as int]);
    assert(v@.subrange(start + 1, end as int) =~= s.drop_first());
    assert(v@.subrange(first as int, end as int) =~= if s[0] == '+' { s.drop_first() } else { s });
    if first == end {
        return None;
    }
    match digits_saturating(v, first, end, radix, max) {
        None => None,
        Some(x) => {
            if x > max {
                None
            } else {
                Some(x)
            }
        },
    }
}

/// `u8::from_str` on the text of `s` with surrounding whitespace removed.
pub fn parse_trimmed_u8(s: &str) -> (r: Option<u8>)
    ensures
        match r {
            Some(x) => parse_unsigned(trim(s@), 10, 255) == Some(x as nat),
            None => parse_unsigned(trim(s@), 10, 255) is None,
        },
{
    let v = trim_chars(s);
    assert(v@.subrange(0, v@.len() as int) =~= v@);
    match parse_unsigned_range(&v, 0, v.len(), 10, 255) {
        Some(x) => Some(x as u8),
        None => None,
    }
}

/// `u16::from_str` on the text of `s` with surrounding whitespace removed.
pub fn parse_trimmed_u16(s: &str) -> (r: Option<u16>)
    ensures
        match r {
            Some(x) => parse_unsigned(trim(s@), 10, 0xffff) == Some(x as nat),
            None => parse_unsigned(trim(s@), 10, 0xffff) is None,
        },
{
    let v = trim_chars(s);
    assert(v@.subrange(0, v@.len() as int) =~= v@);
    match parse_unsigned_range(&v, 0, v.len(), 10, 0xffff) {
        Some(x) => Some(x as u16),
        None => None,
    }
}

/// `u32::from_str` on the text of `s` with surrounding whitespace removed.
pub fn parse_trimmed_u32(s: &str) -> (r: Option<u32>)
    ensures
        match r {
            Some(x) => parse_unsigned(trim(s@), 10, 0xffff_ffff) == Some(x as nat),
            None => parse_unsigned(trim(s@), 10, 0xffff_ffff) is None,
        },
{
    let v = trim_chars(s);
    assert(v@.subrange(0, v@.len() as int) =~= v@);
    match parse_unsigned_range(&v, 0, v.len(), 10, 0xffff_ffff) {
        Some(x) => Some(x as u32),
        None => None,
    }
}

/// `i32::from_str` on the text of `s` with surrounding whitespace removed.
pub fn parse_trimmed_i32(s: &str) -> (r: Option<i32>)
    ensures
        match r {
            Some(x) => parse_signed(trim(s@), -0x8000_0000, 0x7fff_ffff) == Some(x as int),
            None => parse_signed(trim(s@), -0x8000_0000, 0x7fff_ffff) is None,
        },
{
    let v = trim_chars(s);
    let n = v.len();
    assert(v@.subrange(0, n as int) =~= v@);
    if n > 0 && v[0] == '-' {
        assert(v@.subrange(1, n as int) =~= v@.drop_first());
        if n == 1 {
            return None;
        }
        match digits_saturating(&v, 1, n, 10, 0x8000_0000) {
            None => None,
            Some(m) => {
                if m > 0x8000_0000 {
                    None
                } else {
                    Some((0 - (m as i64)) as i32)
                }
            },
        }
    } else {
        match parse_unsigned_range(&v, 0, n, 10, 0x7fff_ffff) {
            Some(x) => Some(x as i32),
            None => None,
        }
    }
}


pub open spec fn digit_char(d: nat) -> char {
    if d == 0 {
        '0'
    } else if d == 1 {
        '1'
    } else if d == 2 {
        '2'
    } else if d == 3 {
        '3'
    } else if d == 4 {
        '4'
    } else if d == 5 {
        '5'
    } else if d == 6 {
        '6'
    } else if d == 7 {
        '7'
    } else if d == 8 {
        '8'
    } else {
        '9'
    }
}

/// The decimal text of `n` as `Display` writes an unsigned integer.
pub open spec fn decimal(n: nat) -> Seq<char>
    decreases n,
{
    if n < 10 {
        seq![digit_char(n)]
    } else {
        decimal(n / 10).push(digit_char(n % 10))
    }
}

fn digit_str(d: u64) -> (s: &'static str)
    requires
        d < 10,
    ensures
        s@ == seq![digit_char(d as nat)],
{
    proof {
        reveal_strlit("0");
        reveal_strlit("1");
        reveal_strlit("2");
        reveal_strlit("3");
        reveal_strlit("4");
        reveal_strlit("5");
        reveal_strlit("6");
        reveal_strlit("7");
        reveal_strlit("8");
        reveal_strlit("9");
    }
    let r = if d == 0 {
        "0"
    } else if d == 1 {
        "1"
    } else if d == 2 {
        "2"
    } else if d == 3 {
        "3"
    } else if d == 4 {
        "4"
    } else if d == 5 {
        "5"
    } else if d == 6 {
        "6"
    } else if d == 7 {
        "7"
    } else if d == 8 {
        "8"
    } else {
        "9"
    };
    assert(r@ =~= seq![digit_char(d as nat)]);
    r
}

/// Appends the decimal text of `n` to `s`.
pub fn push_decimal(s: &mut String, n: u64)
    ensures
        final(s)@ == old(s)@ + decimal(n as nat),
    decreases n,
{
    if n >= 10 {
        push_decimal(s, n / 10);
    }
    s.append(digit_str(n % 10));
    proof {
        if n >= 10 {
            assert(old(s)@ + decimal(n as nat) =~= old(s)@ + decimal((n / 10) as nat) + seq![
                digit_char((n % 10) as nat),
            ]);
        } else {
            assert(old(s)@ + decimal(n as nat) =~= old(s)@ + seq![digit_char((n % 10) as nat)]);
        }
    }
}

/// The decimal text of `n`, as `n.to_string()` gives it.
pub fn decimal_string(n: u64) -> (s: String)
    ensures
        s@ == decimal(n as nat),
{
    let mut s = String::new();
    push_decimal(&mut s, n);
    assert(s@ =~= decimal(n as nat));
    s
}

proof fn lemma_digit_char(d: nat)
    requires
        d < 10,
    ensures
        digit_value(digit_char(d), 10) == Some(d),
        digit_char(d) != '+',
        digit_char(d) != '-',
{
}

proof fn lemma_decimal_digits(n: nat)
    ensures
        decimal(n).len() > 0,
        all_digits(decimal(n), 10),
        digits_value(decimal(n), 10) == n,
        decimal(n)[0] != '+',
        decimal(n)[0] != '-',
    decreases n,
{
    if n < 10 {
        lemma_digit_char(n);
        assert(decimal(n).drop_last() =~= Seq::<char>::empty());
        assert(digits_value(Seq::<char>::empty(), 10) == 0);
        assert(decimal(n).last() == digit_char(n));
    } else {
        lemma_decimal_digits(n / 10);
        lemma_digit_char(n % 10);
        let s = decimal(n);
        assert(s.drop_last() =~= decimal(n / 10));
        assert forall|i: int| 0 <= i < s.len() implies (#[trigger] digit_value(s[i], 10)) is Some by {
            if i < s.len() - 1 {
                assert(s[i] == decimal(n / 10)[i]);
            }
        }
        assert(s[0] == decimal(n / 10)[0]);
        assert(s.last() == digit_char(n % 10));
        assert((n / 10) * 10 + n % 10 == n);
        assert(digits_value(s, 10) == digits_value(decimal(n / 10), 10) * 10 + n % 10);
    }
}

proof fn lemma_decimal_chars(n: nat)
    ensures
        forall|i: int| 0 <= i < decimal(n).len() ==> '0' <= #[trigger] decimal(n)[i] <= '9',
    decreases n,
{
    if n >= 10 {
        lemma_decimal_chars(n / 10);
        let s = decimal(n);
        assert forall|i: int| 0 <= i < s.len() implies '0' <= #[trigger] s[i] <= '9' by {
            if i < s.len() - 1 {
                assert(s[i] == decimal(n / 10)[i]);
            }
        }
    }
}

/// The decimal text of a number has no surrounding whitespace.
pub proof fn lemma_trim_decimal(n: nat)
    ensures
        trim(decimal(n)) == decimal(n),
{
    lemma_decimal_chars(n);
    lemma_decimal_digits(n);
    let s = decimal(n);
    assert(!is_ws(s[0]));
    assert(trim_start(s) == s);
    assert(!is_ws(s.last()));
}

/// Reading back the decimal text of a number gives the number: a value that
/// the daemon writes to a sysfs attribute parses to the same value.
pub proof fn lemma_parse_decimal(n: nat, max: nat)
    requires
        n <= max,
    ensures
        parse_unsigned(decimal(n), 10, max) == Some(n),
        parse_signed(decimal(n), -(max as int) - 1, max as int) == Some(n as int),
{
    lemma_decimal_digits(n);
}


pub open spec fn has_prefix(s: Seq<char>, p: Seq<char>) -> bool {
    p.len() <= s.len() && s.subrange(0, p.len() as int) == p
}

/// Whether `needle` occurs in `s` starting at position `i`.
pub open spec fn occurs_at(s: Seq<char>, needle: Seq<char>, i: int) -> bool {
    0 <= i && i + needle.len() <= s.len() && s.subrange(i, i + needle.len()) == needle
}

pub open spec fn has_substring(s: Seq<char>, needle: Seq<char>) -> bool {
    exists|i: int| occurs_at(s, needle, i)
}

fn matches_at(v: &Vec<char>, p: &Vec<char>, i: usize) -> (r: bool)
    requires
        i + p.len() <= v.len(),
    ensures
        r == (v@.subrange(i as int, i + p.len()) == p@),
{
    let mut k: usize = 0;
    while k < p.len()
        invariant
            i + p.len() <= v.len(),
            k <= p.len(),
            forall|j: int| 0 <= j < k ==> v@[i + j] == p@[j],
        decreases p.len() - k,
    {
        if v[i + k] != p[k] {
            assert(v@.subrange(i as int, i + p.len())[k as int] != p@[k as int]);
            return false;
        }
        k = k + 1;
    }
    assert(v@.subrange(i as int, i + p.len()) =~= p@);
    true
}

/// `str::starts_with` with a string pattern.
pub fn starts_with(s: &str, p: &str) -> (r: bool)
    ensures
        r == has_prefix(s@, p@),
{
    let v = chars_of(s);
    let w = chars_of(p);
    if w.len() > v.len() {
        return false;
    }
    matches_at(&v, &w, 0)
}

/// `str::contains` with a string pattern.
pub fn contains(s: &str, needle: &str) -> (r: bool)
    ensures
        r == has_substring(s@, needle@),
{
    let v = chars_of(s);
    let w = chars_of(needle);
    if w.len() > v.len() {
        assert(!has_substring(s@, needle@));
        return false;
    }
    let last = v.len() - w.len();
    let mut i: usize = 0;
    while i < last
        invariant
            v@ == s@,
            w@ == needle@,
            last == v.len() - w.len(),
            w.len() <= v.len(),
            i <= last,
            forall|j: int| 0 <= j < i ==> !occurs_at(s@, needle@, j),
        decreases last - i,
    {
        if matches_at(&v, &w, i) {
            assert(occurs_at(s@, needle@, i as int));
            return true;
        }
        i = i + 1;
    }
    if matches_at(&v, &w, last) {
        assert(occurs_at(s@, needle@, last as int));
        return true;
    }
    assert forall|j: int| !occurs_at(s@, needle@, j) by {
        if 0 <= j && j + needle@.len() <= s@.len() {
            assert(j <= last);
        }
    }
    false
}

} // verus!
