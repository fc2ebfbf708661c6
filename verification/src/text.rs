//! Text building blocks: characters, decimal and hexadecimal numerals.

use vstd::prelude::*;
use vstd::string::*;

verus! {

/// `String::push` appends one character to the end of the string.
pub assume_specification[ String::push ](s: &mut String, c: char)
    ensures
        final(s)@ == old(s)@.push(c),
;

/// The character that stands for a decimal digit.
pub open spec fn digit_char(d: int) -> char {
    ('0' as int + d) as char
}

/// Decimal numeral of `n`, without leading zeros.
pub open spec fn dec(n: nat) -> Seq<char>
    decreases n,
{
    if n < 10 {
        seq![digit_char(n as int)]
    } else {
        dec(n / 10).push(digit_char((n % 10) as int))
    }
}

/// The lowercase character that stands for a hexadecimal digit.
pub open spec fn hex_char(d: int) -> char {
    if d < 10 {
        ('0' as int + d) as char
    } else {
        ('a' as int + (d - 10)) as char
    }
}

/// The uppercase character that stands for a hexadecimal digit.
pub open spec fn upper_hex_char(d: int) -> char {
    if d < 10 {
        ('0' as int + d) as char
    } else {
        ('A' as int + (d - 10)) as char
    }
}

/// Two uppercase hexadecimal digits per byte, high digit first.
pub open spec fn upper_hex_text(bytes: Seq<u8>) -> Seq<char> {
    Seq::new(
        2 * bytes.len(),
        |i: int|
            if i % 2 == 0 {
                upper_hex_char(bytes[i / 2] as int / 16)
            } else {
                upper_hex_char(bytes[i / 2] as int % 16)
            },
    )
}

/// Two lowercase hexadecimal digits per byte, high digit first.
pub open spec fn hex_text(bytes: Seq<u8>) -> Seq<char> {
    Seq::new(
        2 * bytes.len(),
        |i: int|
            if i % 2 == 0 {
                hex_char(bytes[i / 2] as int / 16)
            } else {
                hex_char(bytes[i / 2] as int % 16)
            },
    )
}

/// Two hexadecimal digits per byte, with a separator between bytes.
pub open spec fn separated_hex(bytes: Seq<u8>, sep: char) -> Seq<char>
    decreases bytes.len(),
{
    if bytes.len() == 0 {
        Seq::empty()
    } else {
        let before = separated_hex(bytes.drop_last(), sep);
        (if bytes.len() == 1 {
            before
        } else {
            before.push(sep)
        }).push(hex_char(bytes.last() as int / 16)).push(hex_char(bytes.last() as int % 16))
    }
}

/// Two hexadecimal digits for each of the first `n` bytes, with a separator between bytes.
pub fn to_separated_hex(bytes: &[u8], n: usize, sep: char) -> (s: String)
    requires
        n <= bytes@.len(),
    ensures
        s@ == separated_hex(bytes@.take(n as int), sep),
{
    let mut s = String::new();
    let mut i: usize = 0;
    while i < n
        invariant
            i <= n <= bytes@.len(),
            s@ == separated_hex(bytes@.take(i as int), sep),
        decreases n - i,
    {
        if i > 0 {
            s.push(sep);
        }
        let b: u8 = bytes[i];
        s.push(hex_digit(b / 16));
        s.push(hex_digit(b % 16));
        assert(bytes@.take(i + 1).drop_last() =~= bytes@.take(i as int));
        i = i + 1;
    }
    s
}

/// Whether two strings hold the same characters.
pub fn same_text(a: &str, b: &str) -> (r: bool)
    ensures
        r == (a@ == b@),
{
    a.to_owned() == b.to_owned()
}

/// The characters of a string.
pub fn to_chars(s: &str) -> (v: Vec<char>)
    ensures
        v@ == s@,
{
    let mut v: Vec<char> = Vec::new();
    for c in it: s.chars()
        invariant
            v@ == it.seq().take(it.index()),
            it.seq() == s@,
    {
        v.push(c);
    }
    v
}

/// The characters `from..to` of a sequence as a string.
pub fn from_chars(v: &Vec<char>, from: usize, to: usize) -> (s: String)
    requires
        from <= to <= v@.len(),
    ensures
        s@ == v@.subrange(from as int, to as int),
{
    let mut s = String::new();
    let mut i: usize = from;
    while i < to
        invariant
            from <= i <= to <= v@.len(),
            s@ == v@.subrange(from as int, i as int),
        decreases to - i,
    {
        s.push(v[i]);
        i = i + 1;
        assert(v@.subrange(from as int, i as int) =~= v@.subrange(from as int, i - 1).push(
            v@[i - 1],
        ));
    }
    s
}

/// The text of an optional string, empty where there is none.
pub open spec fn text_or_empty(o: Option<String>) -> Seq<char> {
    match o {
        Some(s) => s@,
        None => Seq::empty(),
    }
}

/// The text of an optional string, empty where there is none.
pub fn or_empty(o: &Option<String>) -> (s: String)
    ensures
        s@ == text_or_empty(*o),
{
    match o {
        Some(s) => s.clone(),
        None => String::new(),
    }
}

/// `a` followed by `b`.
pub fn join(a: &str, b: &str) -> (s: String)
    ensures
        s@ == a@ + b@,
{
    let mut s = a.to_owned();
    s.append(b);
    s
}

/// Whether a character has the White_Space property.
pub open spec fn is_white(c: char) -> bool {
    let n = c as u32;
    ||| 0x09 <= n <= 0x0d
    ||| n == 0x20
    ||| n == 0x85
    ||| n == 0xa0
    ||| n == 0x1680
    ||| 0x2000 <= n <= 0x200a
    ||| n == 0x2028
    ||| n == 0x2029
    ||| n == 0x202f
    ||| n == 0x205f
    ||| n == 0x3000
}

/// Whether a character has the White_Space property.
pub fn white(c: char) -> (r: bool)
    ensures
        r == is_white(c),
{
    let n: u32 = c as u32;
    (0x09 <= n && n <= 0x0d) || n == 0x20 || n == 0x85 || n == 0xa0 || n == 0x1680 || (0x2000 <= n
        && n <= 0x200a) || n == 0x2028 || n == 0x2029 || n == 0x202f || n == 0x205f || n == 0x3000
}

/// Whether `from..to` is what is left of `s` without white space at either end.
pub open spec fn trimmed_range(s: Seq<char>, from: int, to: int) -> bool {
    &&& 0 <= from <= to <= s.len()
    &&& forall|i: int| 0 <= i < from ==> is_white(#[trigger] s[i])
    &&& forall|i: int| to <= i < s.len() ==> is_white(#[trigger] s[i])
    &&& from < to ==> !is_white(s[from]) && !is_white(s[to - 1])
    &&& from == to ==> from == s.len()
}

/// `s` without white space at either end.
pub open spec fn trimmed(s: Seq<char>) -> Seq<char> {
    let r = choose|r: (int, int)| #[trigger] trimmed_range(s, r.0, r.1);
    s.subrange(r.0, r.1)
}

/// There is one way only to trim a text.
pub proof fn lemma_trimmed(s: Seq<char>, from: int, to: int)
    requires
        trimmed_range(s, from, to),
    ensures
        trimmed(s) == s.subrange(from, to),
{
    let p = (from, to);
    assert(trimmed_range(s, p.0, p.1));
    let r = choose|r: (int, int)| #[trigger] trimmed_range(s, r.0, r.1);
    if from < to {
        assert(is_white(s[from]) || r.0 <= from);
        if r.0 == r.1 {
            assert(is_white(s[from]));
        }
        if r.0 < from {
            assert(is_white(s[r.0]));
        }
        if r.1 > to {
            assert(is_white(s[r.1 - 1]));
        }
        if r.1 < to {
            assert(is_white(s[to - 1]));
        }
    } else if r.0 < r.1 {
        assert(is_white(s[r.0]));
    }
}

/// The bounds of a text without white space at either end.
pub fn trim_range(v: &Vec<char>) -> (r: (usize, usize))
    ensures
        trimmed_range(v@, r.0 as int, r.1 as int),
        trimmed(v@) == v@.subrange(r.0 as int, r.1 as int),
{
    let n: usize = v.len();
    let mut from: usize = 0;
    while from < n && white(v[from])
        invariant
            from <= n == v@.len(),
            forall|i: int| 0 <= i < from ==> is_white(#[trigger] v@[i]),
        decreases n - from,
    {
        from = from + 1;
    }
    let mut to: usize = n;
    while to > from && white(v[to - 1])
        invariant
            from <= to <= n == v@.len(),
            from < n ==> !is_white(v@[from as int]),
            forall|i: int| to <= i < n ==> is_white(#[trigger] v@[i]),
        decreases to,
    {
        to = to - 1;
    }
    proof {
        if from == to && from < n {
            assert(is_white(v@[from as int]));
        }
        lemma_trimmed(v@, from as int, to as int);
    }
    (from, to)
}

/// Whether `p` begins `s`.
pub open spec fn begins_with(s: Seq<char>, p: Seq<char>) -> bool {
    p.len() <= s.len() && s.take(p.len() as int) == p
}

/// `s` without any leading copies of the text `p`.
pub open spec fn without_leading(s: Seq<char>, p: Seq<char>) -> Seq<char>
    decreases s.len(),
{
    if p.len() > 0 && begins_with(s, p) {
        without_leading(s.skip(p.len() as int), p)
    } else {
        s
    }
}

/// Where `v[at..]` begins once all leading copies of `p` are gone.
pub fn skip_leading(v: &Vec<char>, at: usize, p: &str) -> (r: usize)
    requires
        at <= v@.len(),
        p@.len() > 0,
    ensures
        at <= r <= v@.len(),
        v@.skip(r as int) == without_leading(v@.skip(at as int), p@),
{
    let q = to_chars(p);
    let m: usize = q.len();
    let n: usize = v.len();
    let mut r: usize = at;
    loop
        invariant
            at <= r <= v@.len(),
            n == v@.len(),
            q@ == p@,
            m == q@.len(),
            m > 0,
            without_leading(v@.skip(r as int), p@) == without_leading(v@.skip(at as int), p@),
        ensures
            at <= r <= v@.len(),
            v@.skip(r as int) == without_leading(v@.skip(at as int), p@),
        decreases v@.len() - r,
    {
        let ghost here = v@.skip(r as int);
        if n - r < m {
            break;
        }
        let mut i: usize = 0;
        while i < m && v[r + i] == q[i]
            invariant
                i <= m == q@.len(),
                r + m <= n == v@.len(),
                forall|j: int| 0 <= j < i ==> #[trigger] v@[r + j] == q@[j],
            decreases m - i,
        {
            i = i + 1;
        }
        if i < m {
            proof {
                assert(here.take(m as int)[i as int] == v@[r + i]);
                assert(!begins_with(here, p@));
            }
            break;
        }
        proof {
            assert(here.take(m as int) =~= p@) by {
                assert forall|j: int| 0 <= j < m implies here.take(m as int)[j] == p@[j] by {
                    assert(v@[r + j] == q@[j]);
                }
            }
            assert(here.skip(m as int) =~= v@.skip(r + m));
        }
        r = r + m;
    }
    r
}

/// Whether `at` is where `c` first occurs in `s`, or the end of `s` where it does not occur.
pub open spec fn first_at(s: Seq<char>, c: char, at: int) -> bool {
    &&& 0 <= at <= s.len()
    &&& at < s.len() ==> s[at] == c
    &&& forall|i: int| 0 <= i < at ==> #[trigger] s[i] != c
}

/// The part of `s` before its first `c`, or all of it.
pub open spec fn before_first(s: Seq<char>, c: char) -> Seq<char> {
    s.take(choose|at: int| #[trigger] first_at(s, c, at))
}

/// The part of a text before its first `c` ends at the one place where `c` first occurs.
pub proof fn lemma_before_first(s: Seq<char>, c: char, at: int)
    requires
        first_at(s, c, at),
    ensures
        before_first(s, c) == s.take(at),
{
    let b = choose|b: int| #[trigger] first_at(s, c, b);
    if b < at {
        assert(s[b] != c);
    }
    if at < b {
        assert(s[at] != c);
    }
}

/// Where `c` first occurs in `v` from `at` on, or the length of `v`.
pub fn find_first(v: &Vec<char>, at: usize, c: char) -> (r: usize)
    requires
        at <= v@.len(),
    ensures
        at <= r <= v@.len(),
        first_at(v@.skip(at as int), c, r - at),
        v@.subrange(at as int, r as int) == before_first(v@.skip(at as int), c),
{
    let mut r: usize = at;
    while r < v.len() && v[r] != c
        invariant
            at <= r <= v@.len(),
            forall|i: int| at <= i < r ==> #[trigger] v@[i] != c,
        decreases v@.len() - r,
    {
        r = r + 1;
    }
    proof {
        let rest = v@.skip(at as int);
        assert forall|i: int| 0 <= i < r - at implies #[trigger] rest[i] != c by {
            assert(rest[i] == v@[at + i]);
        }
        lemma_before_first(rest, c, r - at);
        assert(v@.subrange(at as int, r as int) =~= rest.take(r - at));
    }
    r
}

/// Whether `at` is where `c` last occurs in `s`.
pub open spec fn last_at(s: Seq<char>, c: char, at: int) -> bool {
    &&& 0 <= at < s.len()
    &&& s[at] == c
    &&& forall|i: int| at < i < s.len() ==> #[trigger] s[i] != c
}

/// Where `c` last occurs in `v[from..to]`.
pub fn find_last(v: &Vec<char>, from: usize, to: usize, c: char) -> (r: Option<usize>)
    requires
        from <= to <= v@.len(),
    ensures
        match r {
            Some(i) => from <= i < to && last_at(
                v@.subrange(from as int, to as int),
                c,
                i - from,
            ),
            None => !v@.subrange(from as int, to as int).contains(c),
        },
{
    let ghost part = v@.subrange(from as int, to as int);
    let mut i: usize = to;
    while i > from
        invariant
            from <= i <= to <= v@.len(),
            part == v@.subrange(from as int, to as int),
            forall|j: int| i - from <= j < to - from ==> #[trigger] part[j] != c,
        decreases i,
    {
        if v[i - 1] == c {
            assert(part[i - 1 - from] == c);
            return Some(i - 1);
        }
        i = i - 1;
    }
    None
}

/// Whether every character of a text is a decimal digit.
pub open spec fn all_digits(s: Seq<char>) -> bool {
    forall|i: int| 0 <= i < s.len() ==> '0' <= #[trigger] s[i] <= '9'
}

/// The number that decimal digits spell.
pub open spec fn digits_value(s: Seq<char>) -> nat
    decreases s.len(),
{
    if s.len() == 0 {
        0
    } else {
        digits_value(s.drop_last()) * 10 + (s.last() as int - '0' as int) as nat
    }
}

/// Reads the decimal digits `v[from..to]` as a 16-bit number; `None` where there is another
/// character, and the value `Err` where the number is too large.
pub fn parse_u16(v: &Vec<char>, from: usize, to: usize) -> (r: Option<Result<u16, ()>>)
    requires
        from <= to <= v@.len(),
    ensures
        match r {
            None => !all_digits(v@.subrange(from as int, to as int)),
            Some(Ok(n)) => all_digits(v@.subrange(from as int, to as int)) && n == digits_value(
                v@.subrange(from as int, to as int),
            ),
            Some(Err(_)) => all_digits(v@.subrange(from as int, to as int)) && digits_value(
                v@.subrange(from as int, to as int),
            ) > u16::MAX,
        },
{
    let ghost part = v@.subrange(from as int, to as int);
    let mut n: u32 = 0;
    let mut i: usize = from;
    while i < to
        invariant
            from <= i <= to <= v@.len(),
            part == v@.subrange(from as int, to as int),
            forall|j: int| 0 <= j < i - from ==> '0' <= #[trigger] part[j] <= '9',
            n <= 0x1_0000,
            n < 0x1_0000 ==> n == digits_value(part.take(i - from)),
            n == 0x1_0000 ==> digits_value(part.take(i - from)) >= 0x1_0000,
        decreases to - i,
    {
        let c: char = v[i];
        if c < '0' || c > '9' {
            assert(part[i - from] == c);
            return None;
        }
        let d: u32 = c as u32 - '0' as u32;
        proof {
            let next = part.take(i + 1 - from);
            assert(next.drop_last() =~= part.take(i - from));
            assert(next.last() == c);
            assert(part[i - from] == c);
        }
        n = n * 10 + d;
        if n > 0x1_0000 {
            n = 0x1_0000;
        }
        i = i + 1;
    }
    assert(part.take(i - from) =~= part);
    if n > 0xffff {
        Some(Err(()))
    } else {
        Some(Ok(n as u16))
    }
}

/// Appends the decimal numeral of `n`.
pub fn push_dec(s: &mut String, n: u64)
    ensures
        final(s)@ == old(s)@ + dec(n as nat),
    decreases n,
{
    if n >= 10 {
        push_dec(s, n / 10);
    }
    let d: u8 = (n % 10) as u8;
    s.push((0x30u8 + d) as char);
}

/// Decimal numeral of an integer, with a sign where it is negative.
pub open spec fn signed_dec(n: int) -> Seq<char> {
    if n < 0 {
        seq!['-'] + dec((-n) as nat)
    } else {
        dec(n as nat)
    }
}

/// Appends the decimal numeral of an integer.
pub fn push_signed(s: &mut String, n: i32)
    ensures
        final(s)@ == old(s)@ + signed_dec(n as int),
{
    let ghost before = s@;
    if n < 0 {
        s.push('-');
        push_dec(s, (-(n as i64)) as u64);
        assert(before.push('-') + dec((-n) as nat) =~= before + (seq!['-'] + dec((-n) as nat)));
    } else {
        push_dec(s, n as u64);
    }
}

/// The lowercase hexadecimal digit for `d`.
pub fn hex_digit(d: u8) -> (c: char)
    requires
        d < 16,
    ensures
        c == hex_char(d as int),
{
    if d < 10 {
        (0x30u8 + d) as char
    } else {
        (0x61u8 + (d - 10)) as char
    }
}

/// The uppercase hexadecimal digit for `d`.
pub fn upper_hex_digit(d: u8) -> (c: char)
    requires
        d < 16,
    ensures
        c == upper_hex_char(d as int),
{
    if d < 10 {
        (0x30u8 + d) as char
    } else {
        (0x41u8 + (d - 10)) as char
    }
}

/// Uppercase hexadecimal text of the first `n` bytes.
pub fn to_upper_hex(bytes: &[u8], n: usize) -> (s: String)
    requires
        n <= bytes@.len(),
    ensures
        s@ == upper_hex_text(bytes@.take(n as int)),
{
    let mut s = String::new();
    let mut i: usize = 0;
    while i < n
        invariant
            i <= n <= bytes@.len(),
            s@ == upper_hex_text(bytes@.take(i as int)),
        decreases n - i,
    {
        let b: u8 = bytes[i];
        s.push(upper_hex_digit(b / 16));
        s.push(upper_hex_digit(b % 16));
        proof {
            let before = bytes@.take(i as int);
            let after = bytes@.take(i + 1);
            assert(upper_hex_text(after) =~= upper_hex_text(before).push(
                upper_hex_char(b as int / 16),
            ).push(upper_hex_char(b as int % 16)));
        }
        i = i + 1;
    }
    s
}

/// Lowercase hexadecimal text of a byte string.
pub fn to_hex(bytes: &[u8]) -> (s: String)
    ensures
        s@ == hex_text(bytes@),
{
    let mut s = String::new();
    let mut i: usize = 0;
    while i < bytes.len()
        invariant
            i <= bytes@.len(),
            s@ == hex_text(bytes@.take(i as int)),
        decreases bytes@.len() - i,
    {
        let b: u8 = bytes[i];
        s.push(hex_digit(b / 16));
        s.push(hex_digit(b % 16));
        proof {
            let before = bytes@.take(i as int);
            let after = bytes@.take(i + 1);
            assert(hex_text(after) =~= hex_text(before).push(hex_char(b as int / 16)).push(
                hex_char(b as int % 16),
            ));
        }
        i = i + 1;
    }
    proof {
        assert(bytes@.take(i as int) =~= bytes@);
    }
    s
}

/// A decimal numeral reads back as its number, has digits only, and no zero in front but that of
/// zero itself.
pub proof fn law_decimal_round_trip(n: nat)
    ensures
        all_digits(dec(n)),
        digits_value(dec(n)) == n,
        dec(n).len() > 0,
        dec(n)[0] == '0' ==> n == 0 && dec(n).len() == 1,
    decreases n,
{
    reveal_with_fuel(digits_value, 2);
    if n < 10 {
        assert(dec(n).drop_last() =~= Seq::<char>::empty());
    } else {
        law_decimal_round_trip(n / 10);
        assert(dec(n).drop_last() =~= dec(n / 10));
    }
}

/// Digits are worth their places: one more digit makes ten of what was there and adds itself.
pub proof fn law_digits_are_worth_their_places(s: Seq<char>, c: char)
    requires
        '0' <= c <= '9',
    ensures
        digits_value(s.push(c)) == 10 * digits_value(s) + (c as int - 48),
        digits_value(Seq::empty()) == 0,
        all_digits(s.push(c)) <==> all_digits(s),
{
    assert(s.push(c).drop_last() =~= s);
    if all_digits(s.push(c)) {
        assert forall|i: int| 0 <= i < s.len() implies '0' <= #[trigger] s[i] <= '9' by {
            assert(s.push(c)[i] == s[i]);
        }
    }
}

/// A decimal numeral is read as its number, wherever it stands in a text, and one that is too large
/// is told apart.
pub proof fn law_ports_are_read(
    v: &Vec<char>,
    from: usize,
    to: usize,
    n: nat,
    r: Option<Result<u16, ()>>,
)
    requires
        call_ensures(parse_u16, (v, from, to), r),
        from <= to <= v@.len(),
        v@.subrange(from as int, to as int) == dec(n),
    ensures
        n < 65536 ==> (r matches Some(Ok(k)) && k == n),
        n >= 65536 ==> (r matches Some(Err(_))),
{
    law_decimal_round_trip(n);
}

/// A negative number is its numeral behind a minus sign, any other its numeral alone.
pub proof fn law_signs(n: int)
    ensures
        n < 0 ==> signed_dec(n)[0] == '-' && digits_value(signed_dec(n).skip(1)) == -n,
        n >= 0 ==> digits_value(signed_dec(n)) == n && all_digits(signed_dec(n)),
{
    if n < 0 {
        law_decimal_round_trip((-n) as nat);
        assert(signed_dec(n).skip(1) =~= dec((-n) as nat));
    } else {
        law_decimal_round_trip(n as nat);
    }
}

/// Hexadecimal text has two digits per byte, the high one first, out of the usual sixteen.
pub proof fn law_hex_text(bytes: Seq<u8>, i: int)
    requires
        0 <= i < bytes.len(),
    ensures
        hex_text(bytes).len() == 2 * bytes.len(),
        upper_hex_text(bytes).len() == 2 * bytes.len(),
        hex_text(bytes)[2 * i] == "0123456789abcdef"@[bytes[i] as int / 16],
        hex_text(bytes)[2 * i + 1] == "0123456789abcdef"@[bytes[i] as int % 16],
        upper_hex_text(bytes)[2 * i] == "0123456789ABCDEF"@[bytes[i] as int / 16],
        upper_hex_text(bytes)[2 * i + 1] == "0123456789ABCDEF"@[bytes[i] as int % 16],
{
    reveal_strlit("0123456789abcdef");
    reveal_strlit("0123456789ABCDEF");
}

/// Separated hexadecimal text is two digits per byte with the separator between bytes, and nowhere
/// else.
pub proof fn law_separated_hex(bytes: Seq<u8>, sep: char, i: int)
    requires
        0 <= i < bytes.len(),
    ensures
        separated_hex(bytes, sep).len() == 3 * bytes.len() - 1,
        separated_hex(bytes, sep)[3 * i] == "0123456789abcdef"@[bytes[i] as int / 16],
        separated_hex(bytes, sep)[3 * i + 1] == "0123456789abcdef"@[bytes[i] as int % 16],
        i + 1 < bytes.len() ==> separated_hex(bytes, sep)[3 * i + 2] == sep,
    decreases bytes.len(),
{
    reveal_strlit("0123456789abcdef");
    reveal_with_fuel(separated_hex, 2);
    let rest = bytes.drop_last();
    if bytes.len() > 1 {
        if i + 1 < bytes.len() {
            law_separated_hex(rest, sep, i);
        } else {
            law_separated_hex(rest, sep, 0);
        }
    } else {
        assert(rest.len() == 0);
    }
}

/// The white characters are those of Unicode, and no others.
pub proof fn law_white_space(c: char, r: bool)
    requires
        call_ensures(white, (c,), r),
    ensures
        r <==> c == ' ' || (0x09 <= c as u32 <= 0x0d) || c as u32 == 0x85 || c as u32 == 0xa0
            || c as u32 == 0x1680 || (0x2000 <= c as u32 <= 0x200a) || c as u32 == 0x2028
            || c as u32 == 0x2029 || c as u32 == 0x202f || c as u32 == 0x205f || c as u32 == 0x3000,
{
}

/// Trimming takes the white characters off both ends, and nothing else.
pub proof fn law_trimming(before: Seq<char>, kept: Seq<char>, after: Seq<char>)
    requires
        forall|i: int| 0 <= i < before.len() ==> is_white(#[trigger] before[i]),
        forall|i: int| 0 <= i < after.len() ==> is_white(#[trigger] after[i]),
        kept.len() > 0 ==> !is_white(kept[0]) && !is_white(kept.last()),
    ensures
        trimmed(before + kept + after) == kept,
{
    let s = before + kept + after;
    let from = before.len() as int;
    let to = from + kept.len();
    if kept.len() > 0 {
        assert(trimmed_range(s, from, to));
        lemma_trimmed(s, from, to);
        assert(s.subrange(from, to) =~= kept);
    } else {
        let n = s.len() as int;
        assert forall|i: int| 0 <= i < n implies is_white(#[trigger] s[i]) by {
            if i < from {
                assert(s[i] == before[i]);
            } else {
                assert(s[i] == after[i - from]);
            }
        }
        assert(trimmed_range(s, n, n));
        lemma_trimmed(s, n, n);
        assert(s.subrange(n, n) =~= kept);
    }
}

/// Leading copies of a text are taken off, all of them, and nothing else.
pub proof fn law_leading_copies_go(s: Seq<char>, p: Seq<char>)
    requires
        p.len() > 0,
    ensures
        without_leading(p + s, p) == without_leading(s, p),
        !begins_with(without_leading(s, p), p),
        !begins_with(s, p) ==> without_leading(s, p) == s,
        begins_with(p + s, p),
        begins_with(s, p) ==> s == p + s.skip(p.len() as int),
    decreases s.len(),
{
    let whole = p + s;
    assert(whole.take(p.len() as int) =~= p);
    assert(whole.skip(p.len() as int) =~= s);
    if begins_with(s, p) {
        assert(s =~= s.take(p.len() as int) + s.skip(p.len() as int));
        law_leading_copies_go(s.skip(p.len() as int), p);
    }
}

/// What comes before the first occurrence of a character is cut off there, and a text without one
/// stays whole.
pub proof fn law_before_first(head: Seq<char>, c: char, tail: Seq<char>)
    requires
        !head.contains(c),
    ensures
        before_first(head + seq![c] + tail, c) == head,
        before_first(head, c) == head,
{
    let s = head + seq![c] + tail;
    assert forall|i: int| 0 <= i < head.len() implies #[trigger] s[i] != c by {
        assert(head.contains(head[i]));
    }
    assert(first_at(s, c, head.len() as int));
    lemma_before_first(s, c, head.len() as int);
    assert(s.take(head.len() as int) =~= head);
    assert forall|i: int| 0 <= i < head.len() implies #[trigger] head[i] != c by {
        assert(head.contains(head[i]));
    }
    assert(first_at(head, c, head.len() as int));
    lemma_before_first(head, c, head.len() as int);
    assert(head.take(head.len() as int) =~= head);
}

/// An optional text that is missing is empty, and one that is there is itself.
pub proof fn law_optional_text(o: Option<String>, s: String)
    requires
        call_ensures(or_empty, (&o,), s),
    ensures
        o matches Some(t) ==> s@ == t@,
        o is None ==> s@.len() == 0,
{
}

/// A character is found where it stands last in the part that is looked at, and found wherever it
/// stands there at all.
pub proof fn law_last_occurrence(v: &Vec<char>, from: usize, to: usize, c: char, r: Option<usize>, k: int)
    requires
        call_ensures(find_last, (v, from, to, c), r),
        from <= k < to <= v@.len(),
    ensures
        r matches Some(i) ==> from <= i < to && v@[i as int] == c && (k > i ==> v@[k] != c),
        r is None ==> v@[k] != c,
{
    let part = v@.subrange(from as int, to as int);
    assert(part[k - from] == v@[k]);
    if let Some(i) = r {
        assert(part[i - from] == v@[i as int]);
    } else {
        assert(part.contains(part[k - from]));
    }
}

} // verus!
