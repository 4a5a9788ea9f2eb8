//! Character sequences: the predicates, searches and renderings that the rest
//! of the library states its contracts with, and the executable functions that
//! compute them on `&str` and `Vec<char>`.

use vstd::prelude::*;

verus! {

/// `c` is one of `0`..`9`.
pub open spec fn is_digit(c: char) -> bool {
    '0' <= c <= '9'
}

/// `c` is a hexadecimal digit of either case.
pub open spec fn is_hex_digit(c: char) -> bool {
    ('0' <= c <= '9') || ('a' <= c <= 'f') || ('A' <= c <= 'F')
}

/// `c` is an ASCII letter.
pub open spec fn is_alpha(c: char) -> bool {
    ('a' <= c <= 'z') || ('A' <= c <= 'Z')
}

/// `c` is an ASCII letter or digit.
pub open spec fn is_alnum(c: char) -> bool {
    is_alpha(c) || is_digit(c)
}

/// `c` has the Unicode property `White_Space`.
pub open spec fn is_space(c: char) -> bool {
    let n = c as u32;
    (0x09 <= n <= 0x0d) || n == 0x20 || n == 0x85 || n == 0xa0 || n == 0x1680 || (0x2000 <= n
        <= 0x200a) || n == 0x2028 || n == 0x2029 || n == 0x202f || n == 0x205f || n == 0x3000
}

/// The number that the hexadecimal digit `c` stands for (0 for any other character).
pub open spec fn hex_value(c: char) -> nat {
    if '0' <= c <= '9' {
        (c as u32 - '0' as u32) as nat
    } else if 'a' <= c <= 'f' {
        (c as u32 - 'a' as u32 + 10) as nat
    } else if 'A' <= c <= 'F' {
        (c as u32 - 'A' as u32 + 10) as nat
    } else {
        0
    }
}

/// The lower-case hexadecimal digit for `n < 16`.
pub open spec fn hex_digit(n: nat) -> char {
    if n < 10 {
        ('0' as u32 + n as u32) as char
    } else {
        ('a' as u32 + (n - 10) as u32) as char
    }
}

/// `p` stands in `s` at position `i`.
pub open spec fn occurs_at(s: Seq<char>, p: Seq<char>, i: int) -> bool {
    0 <= i && i + p.len() <= s.len() && s.subrange(i, i + p.len()) == p
}

/// `p` stands somewhere in `s`.
pub open spec fn contains(s: Seq<char>, p: Seq<char>) -> bool {
    exists|i: int| occurs_at(s, p, i)
}

/// `s` without its leading white space.
pub open spec fn skip_spaces(s: Seq<char>) -> Seq<char>
    decreases s.len(),
{
    if s.len() > 0 && is_space(s[0]) {
        skip_spaces(s.drop_first())
    } else {
        s
    }
}

/// `s` without its trailing white space.
pub open spec fn drop_trailing_spaces(s: Seq<char>) -> Seq<char>
    decreases s.len(),
{
    if s.len() > 0 && is_space(s.last()) {
        drop_trailing_spaces(s.drop_last())
    } else {
        s
    }
}

/// `s` without leading and trailing white space.
pub open spec fn trimmed(s: Seq<char>) -> Seq<char> {
    drop_trailing_spaces(skip_spaces(s))
}

/// The decimal digits of `n`, most significant first, without leading zeros.
pub open spec fn decimal(n: nat) -> Seq<char>
    decreases n,
{
    if n < 10 {
        seq![hex_digit(n)]
    } else {
        decimal(n / 10).push(hex_digit(n % 10))
    }
}

/// The items of `parts` in order, with `sep` between each two neighbours.
pub open spec fn joined(parts: Seq<Seq<char>>, sep: Seq<char>) -> Seq<char>
    decreases parts.len(),
{
    if parts.len() == 0 {
        Seq::empty()
    } else if parts.len() == 1 {
        parts[0]
    } else {
        joined(parts.drop_last(), sep) + sep + parts.last()
    }
}

/// The number of bytes that `s` takes in UTF-8.
pub open spec fn utf8_len(s: Seq<char>) -> nat {
    vstd::utf8::encode_utf8(s).len()
}

/// The views of the strings of `v`, in order.
pub open spec fn views(v: Seq<String>) -> Seq<Seq<char>> {
    Seq::new(v.len(), |i: int| v[i]@)
}

pub fn is_digit_char(c: char) -> (b: bool)
    ensures
        b == is_digit(c),
{
    '0' <= c && c <= '9'
}

pub fn is_hex_digit_char(c: char) -> (b: bool)
    ensures
        b == is_hex_digit(c),
{
    ('0' <= c && c <= '9') || ('a' <= c && c <= 'f') || ('A' <= c && c <= 'F')
}

pub fn is_alpha_char(c: char) -> (b: bool)
    ensures
        b == is_alpha(c),
{
    ('a' <= c && c <= 'z') || ('A' <= c && c <= 'Z')
}

pub fn is_alnum_char(c: char) -> (b: bool)
    ensures
        b == is_alnum(c),
{
    is_alpha_char(c) || is_digit_char(c)
}

pub fn is_space_char(c: char) -> (b: bool)
    ensures
        b == is_space(c),
{
    let n: u32 = c as u32;
    (0x09 <= n && n <= 0x0d) || n == 0x20 || n == 0x85 || n == 0xa0 || n == 0x1680 || (0x2000
        <= n && n <= 0x200a) || n == 0x2028 || n == 0x2029 || n == 0x202f || n == 0x205f || n
        == 0x3000
}

/// The characters of `s`.
pub fn to_chars(s: &str) -> (v: Vec<char>)
    ensures
        v@ == s@,
{
    let mut out: Vec<char> = Vec::new();
    for c in it: s.chars()
        invariant
            it.seq() == s@,
            out@ == s@.subrange(0, it.index() as int),
    {
        out.push(c);
    }
    out
}

/// `String::push`: the string grows by the one character `c` at its end.
#[verifier::external_body]
pub(crate) fn push_char(s: &mut String, c: char)
    ensures
        final(s)@ == old(s)@.push(c),
{
    s.push(c);
}

/// The lower-case form of a text, as Unicode defines it.
pub uninterp spec fn unicode_lowercase(s: Seq<char>) -> Seq<char>;

/// `str::to_lowercase`: the lower-case form of `s`.
#[verifier::external_body]
pub(crate) fn lowercase(s: &str) -> (r: String)
    ensures
        r@ == unicode_lowercase(s@),
{
    s.to_lowercase()
}

/// The string made of `v[from..to]`.
pub fn from_chars(v: &Vec<char>, from: usize, to: usize) -> (s: String)
    requires
        from <= to <= v.len(),
    ensures
        s@ == v@.subrange(from as int, to as int),
{
    let mut out = String::new();
    let mut i: usize = from;
    while i < to
        invariant
            from <= i <= to <= v.len(),
            out@ == v@.subrange(from as int, i as int),
        decreases to - i,
    {
        push_char(&mut out, v[i]);
        i += 1;
    }
    out
}

/// Whether two character vectors hold the same characters.
pub fn chars_eq(a: &Vec<char>, b: &Vec<char>) -> (r: bool)
    ensures
        r == (a@ == b@),
{
    if a.len() != b.len() {
        return false;
    }
    let mut i: usize = 0;
    while i < a.len()
        invariant
            a.len() == b.len(),
            i <= a.len(),
            a@.subrange(0, i as int) == b@.subrange(0, i as int),
        decreases a.len() - i,
    {
        if a[i] != b[i] {
            return false;
        }
        proof {
            assert(a@.subrange(0, i + 1) == a@.subrange(0, i as int).push(a@[i as int]));
            assert(b@.subrange(0, i + 1) == b@.subrange(0, i as int).push(b@[i as int]));
        }
        i += 1;
    }
    proof {
        assert(a@.subrange(0, a.len() as int) == a@);
        assert(b@.subrange(0, b.len() as int) == b@);
    }
    true
}

/// Whether two strings hold the same characters.
pub fn str_eq(a: &str, b: &str) -> (r: bool)
    ensures
        r == (a@ == b@),
{
    let x = to_chars(a);
    let y = to_chars(b);
    chars_eq(&x, &y)
}

/// Whether `p` stands in `s` at position `i`.
pub fn chars_occur_at(s: &Vec<char>, p: &Vec<char>, i: usize) -> (r: bool)
    ensures
        r == occurs_at(s@, p@, i as int),
{
    if p.len() > s.len() || i > s.len() - p.len() {
        return false;
    }
    let mut j: usize = 0;
    while j < p.len()
        invariant
            j <= p.len(),
            i + p.len() <= s.len(),
            s@.subrange(i as int, i + j) == p@.subrange(0, j as int),
        decreases p.len() - j,
    {
        if s[i + j] != p[j] {
            proof {
                assert(s@.subrange(i as int, i + p.len())[j as int] == s@[i + j]);
            }
            return false;
        }
        proof {
            assert(s@.subrange(i as int, i + j + 1) == s@.subrange(i as int, i + j).push(
                s@[i + j],
            ));
            assert(p@.subrange(0, j + 1) == p@.subrange(0, j as int).push(p@[j as int]));
        }
        j += 1;
    }
    proof {
        assert(p@.subrange(0, p.len() as int) == p@);
    }
    true
}

/// Whether `p` stands somewhere in `s`.
pub fn chars_contain(s: &Vec<char>, p: &Vec<char>) -> (r: bool)
    ensures
        r == contains(s@, p@),
{
    if p.len() > s.len() {
        return false;
    }
    let last: usize = s.len() - p.len();
    let mut i: usize = 0;
    loop
        invariant
            i <= last,
            last == s.len() - p.len(),
            forall|k: int| 0 <= k < i ==> !occurs_at(s@, p@, k),
        decreases last - i,
    {
        if chars_occur_at(s, p, i) {
            return true;
        }
        if i == last {
            return false;
        }
        i += 1;
    }
}

/// Whether the text `p` stands somewhere in `s`.
pub fn chars_contain_str(s: &Vec<char>, p: &str) -> (r: bool)
    ensures
        r == contains(s@, p@),
{
    let needle = to_chars(p);
    chars_contain(s, &needle)
}

/// `s` without leading and trailing white space.
pub fn trim(s: &str) -> (r: String)
    ensures
        r@ == trimmed(s@),
{
    let v = to_chars(s);
    let mut start: usize = 0;
    proof {
        assert(v@.subrange(0, v.len() as int) == v@);
    }
    while start < v.len() && is_space_char(v[start])
        invariant
            start <= v.len(),
            skip_spaces(v@) == skip_spaces(v@.subrange(start as int, v.len() as int)),
        decreases v.len() - start,
    {
        proof {
            let rest = v@.subrange(start as int, v.len() as int);
            assert(rest.drop_first() == v@.subrange(start + 1, v.len() as int));
        }
        start += 1;
    }
    let mut end: usize = v.len();
    while end > start && is_space_char(v[end - 1])
        invariant
            start <= end <= v.len(),
            skip_spaces(v@) == v@.subrange(start as int, v.len() as int),
            trimmed(v@) == drop_trailing_spaces(v@.subrange(start as int, end as int)),
        decreases end - start,
    {
        proof {
            let rest = v@.subrange(start as int, end as int);
            assert(rest.drop_last() == v@.subrange(start as int, end - 1));
        }
        end -= 1;
    }
    from_chars(&v, start, end)
}

/// The decimal digits of `n`.
pub fn decimal_string_wide(n: u128) -> (r: String)
    ensures
        r@ == decimal(n as nat),
{
    let mut digits: Vec<char> = Vec::new();
    let mut rest: u128 = n;
    proof {
        assert(digits@.reverse() == Seq::<char>::empty());
        assert(decimal(n as nat) + Seq::<char>::empty() == decimal(n as nat));
    }
    // The digits come out least significant first.
    while rest >= 10
        invariant
            decimal(n as nat) == decimal(rest as nat) + digits@.reverse(),
        decreases rest,
    {
        let d: u8 = (rest % 10) as u8;
        let c: char = digit_char(d);
        proof {
            let before = digits@;
            let after = before.push(c);
            assert(after.reverse() == seq![c] + before.reverse());
            assert(decimal(rest as nat) == decimal((rest / 10) as nat).push(c));
            assert(decimal((rest / 10) as nat).push(c) + before.reverse() == decimal(
                (rest / 10) as nat,
            ) + (seq![c] + before.reverse()));
        }
        digits.push(c);
        rest = rest / 10;
    }
    let mut out = String::new();
    push_char(&mut out, digit_char(rest as u8));
    let mut i: usize = digits.len();
    while i > 0
        invariant
            i <= digits.len(),
            out@ == decimal(rest as nat) + digits@.reverse().subrange(0, digits.len() - i),
            rest < 10,
        decreases i,
    {
        proof {
            let r = digits@.reverse();
            let k = digits.len() - i;
            assert(r.subrange(0, k + 1) == r.subrange(0, k).push(r[k]));
            assert(r[k] == digits@[i - 1]);
        }
        push_char(&mut out, digits[i - 1]);
        i -= 1;
    }
    proof {
        let r = digits@.reverse();
        assert(r.subrange(0, digits.len() as int) == r);
    }
    out
}

/// The decimal digits of `n`.
pub fn decimal_string(n: u64) -> (r: String)
    ensures
        r@ == decimal(n as nat),
{
    decimal_string_wide(n as u128)
}

/// The digit character for `d < 16`, lower case.
pub fn digit_char(d: u8) -> (c: char)
    requires
        d < 16,
    ensures
        c == hex_digit(d as nat),
{
    if d < 10 {
        (48u8 + d) as char
    } else {
        (97u8 + (d - 10)) as char
    }
}

/// The text made of `head` and `tail`.
pub fn concat(head: &str, tail: &str) -> (r: String)
    ensures
        r@ == head@ + tail@,
{
    let mut r = String::from_str(head);
    r.append(tail);
    r
}

/// The strings of `parts` in order, with `sep` between each two neighbours.
pub fn join(parts: &Vec<String>, sep: &str) -> (r: String)
    ensures
        r@ == joined(views(parts@), sep@),
{
    let mut out = String::new();
    let mut i: usize = 0;
    while i < parts.len()
        invariant
            i <= parts.len(),
            out@ == joined(views(parts@).subrange(0, i as int), sep@),
        decreases parts.len() - i,
    {
        proof {
            let all = views(parts@);
            let upto = all.subrange(0, i + 1);
            assert(upto.drop_last() == all.subrange(0, i as int));
            assert(upto.last() == parts@[i as int]@);
            if i == 0 {
                assert(all.subrange(0, 0).len() == 0);
                assert(out@ == Seq::<char>::empty());
                assert(out@ + parts@[0]@ == parts@[0]@);
            }
        }
        if i > 0 {
            out.append(sep);
        }
        out.append(parts[i].as_str());
        i += 1;
    }
    proof {
        assert(views(parts@).subrange(0, parts.len() as int) == views(parts@));
    }
    out
}

/// `s` with every occurrence of `from` replaced by `to`, from left to right
/// and without overlap.
pub open spec fn replaced(s: Seq<char>, from: Seq<char>, to: Seq<char>) -> Seq<char>
    decreases s.len(),
{
    if from.len() == 0 || s.len() < from.len() {
        s
    } else if s.subrange(0, from.len() as int) == from {
        to + replaced(s.skip(from.len() as int), from, to)
    } else {
        seq![s[0]] + replaced(s.skip(1), from, to)
    }
}

/// `s` with every occurrence of `from` replaced by `to`.
pub fn replace_all(s: &str, from: &str, to: &str) -> (r: String)
    requires
        from@.len() > 0,
    ensures
        r@ == replaced(s@, from@, to@),
{
    let chars = to_chars(s);
    let pattern = to_chars(from);
    let mut out = String::new();
    let mut i: usize = 0;
    proof {
        assert(chars@.skip(0) == chars@);
        assert(out@ + replaced(chars@, from@, to@) =~= replaced(chars@, from@, to@));
    }
    while i < chars.len()
        invariant
            i <= chars.len(),
            chars@ == s@,
            pattern@ == from@,
            from@.len() > 0,
            out@ + replaced(chars@.skip(i as int), from@, to@) == replaced(s@, from@, to@),
        decreases chars.len() - i,
    {
        let ghost rest = chars@.skip(i as int);
        let ghost before = out@;
        if chars_occur_at(&chars, &pattern, i) {
            proof {
                assert(rest.subrange(0, from@.len() as int) == chars@.subrange(
                    i as int,
                    i + from@.len(),
                ));
                assert(rest.skip(from@.len() as int) == chars@.skip(i + from@.len()));
            }
            out.append(to);
            i += pattern.len();
            proof {
                assert(out@ + replaced(chars@.skip(i as int), from@, to@) =~= before + (to@
                    + replaced(chars@.skip(i as int), from@, to@)));
            }
        } else {
            proof {
                if rest.len() >= from@.len() {
                    assert(rest.subrange(0, from@.len() as int) == chars@.subrange(
                        i as int,
                        i + from@.len(),
                    ));
                }
                assert(rest.skip(1) == chars@.skip(i + 1));
                assert(rest[0] == chars@[i as int]);
            }
            push_char(&mut out, chars[i]);
            i += 1;
            proof {
                if rest.len() >= from@.len() {
                    assert(out@ + replaced(chars@.skip(i as int), from@, to@) =~= before + (seq![
                        rest[0],
                    ] + replaced(chars@.skip(i as int), from@, to@)));
                } else {
                    // What is left is shorter than the pattern and stays as it is.
                    assert(replaced(rest, from@, to@) == rest);
                    assert(replaced(rest.skip(1), from@, to@) == rest.skip(1));
                    assert(out@ + rest.skip(1) =~= before + rest);
                }
            }
        }
    }
    proof {
        assert(chars@.skip(chars.len() as int) =~= Seq::<char>::empty());
        assert(out@ + Seq::<char>::empty() =~= out@);
    }
    out
}

} // verus!
