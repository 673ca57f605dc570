//! Text utilities: strings as sequences of characters, and substring search.

use vstd::prelude::*;
use vstd::string::StringExecFns;

verus! {

/// Appends one character, by std's `String::push`: the string afterwards is
/// the string before with the character at its end.
#[verifier::external_body]
pub(crate) fn push_char(s: &mut String, c: char)
    ensures
        final(s)@ == old(s)@.push(c),
{
    s.push(c);
}

/// Whether two strings hold the same characters.
pub fn same(a: &str, b: &str) -> (r: bool)
    ensures
        r == (a@ == b@),
{
    let left = a.to_owned();
    let right = b.to_owned();
    left == right
}

/// The characters of a string.
pub fn chars_of(s: &str) -> (v: Vec<char>)
    ensures
        v@ == s@,
{
    let mut v: Vec<char> = Vec::new();
    for c in it: s.chars()
        invariant
            v@ == it.seq().take(it.index() as int),
            it.seq() == s@,
    {
        v.push(c);
    }
    v
}

/// The string of a run of characters.
pub fn string_of(chars: &Vec<char>) -> (s: String)
    ensures
        s@ == chars@,
{
    let mut s = String::new();
    let mut i: usize = 0;
    while i < chars.len()
        invariant
            i <= chars.len(),
            s@ == chars@.take(i as int),
        decreases chars.len() - i,
    {
        push_char(&mut s, chars[i]);
        assert(chars@.take(i + 1) =~= chars@.take(i as int).push(chars@[i as int]));
        i += 1;
    }
    assert(chars@.take(chars.len() as int) =~= chars@);
    s
}

/// What std's `str::to_lowercase` returns for a string.
pub uninterp spec fn lowercase_of(s: Seq<char>) -> Seq<char>;

/// The lowercase form of a string, by std's `str::to_lowercase`. The contract
/// names the result and says nothing of what it holds.
#[verifier::external_body]
pub(crate) fn lowercase(s: &str) -> (r: String)
    ensures
        r@ == lowercase_of(s@),
{
    s.to_lowercase()
}

/// `needle` occurs in `hay` at position `at`.
pub open spec fn matches_at(hay: Seq<char>, needle: Seq<char>, at: int) -> bool {
    0 <= at && at + needle.len() <= hay.len() && hay.subrange(at, at + needle.len()) == needle
}

/// `needle` occurs somewhere in `hay`.
pub open spec fn has_substring(hay: Seq<char>, needle: Seq<char>) -> bool {
    exists|at: int| matches_at(hay, needle, at)
}

/// The first position at or after `from` at which `needle` occurs in `hay`.
pub open spec fn first_match(hay: Seq<char>, needle: Seq<char>, from: int) -> Option<int>
    decreases hay.len() - from + 1,
{
    if from < 0 || from + needle.len() > hay.len() {
        None
    } else if matches_at(hay, needle, from) {
        Some(from)
    } else {
        first_match(hay, needle, from + 1)
    }
}

/// `first_match` finds an occurrence exactly where there is one at or after
/// `from`, and the one it finds is the first.
pub proof fn lemma_first_match(hay: Seq<char>, needle: Seq<char>, from: int)
    requires
        0 <= from,
    ensures
        match first_match(hay, needle, from) {
            Some(at) => from <= at && matches_at(hay, needle, at) && forall|k: int|
                from <= k < at ==> !matches_at(hay, needle, k),
            None => forall|k: int| from <= k ==> !matches_at(hay, needle, k),
        },
    decreases hay.len() - from + 1,
{
    if from + needle.len() > hay.len() {
    } else if matches_at(hay, needle, from) {
    } else {
        lemma_first_match(hay, needle, from + 1);
    }
}

/// Whether `needle` occurs in `hay` at position `at`.
pub fn matches(hay: &Vec<char>, needle: &Vec<char>, at: usize) -> (r: bool)
    ensures
        r == matches_at(hay@, needle@, at as int),
{
    if needle.len() > hay.len() || at > hay.len() - needle.len() {
        return false;
    }
    let mut k: usize = 0;
    while k < needle.len()
        invariant
            k <= needle.len(),
            at + needle.len() <= hay.len(),
            forall|j: int| 0 <= j < k ==> hay@[at + j] == needle@[j],
        decreases needle.len() - k,
    {
        if hay[at + k] != needle[k] {
            assert(hay@.subrange(at as int, at + needle.len())[k as int] != needle@[k as int]);
            return false;
        }
        k += 1;
    }
    assert(hay@.subrange(at as int, at + needle.len()) =~= needle@);
    true
}

/// The first position at or after `from` at which `needle` occurs in `hay`.
pub fn find(hay: &Vec<char>, needle: &Vec<char>, from: usize) -> (r: Option<usize>)
    ensures
        match r {
            Some(at) => first_match(hay@, needle@, from as int) == Some(at as int),
            None => first_match(hay@, needle@, from as int).is_none(),
        },
{
    if needle.len() > hay.len() {
        return None;
    }
    let last: usize = hay.len() - needle.len();
    let mut at: usize = from;
    while at <= last
        invariant
            from <= at,
            last == hay.len() - needle.len(),
            first_match(hay@, needle@, from as int) == first_match(hay@, needle@, at as int),
        decreases last + 1 - at,
    {
        if matches(hay, needle, at) {
            return Some(at);
        }
        if at == last {
            assert(first_match(hay@, needle@, at + 1).is_none());
            return None;
        }
        at += 1;
    }
    None
}

/// Whether `needle` occurs somewhere in `hay`.
pub fn contains(hay: &str, needle: &str) -> (r: bool)
    ensures
        r == has_substring(hay@, needle@),
{
    let h = chars_of(hay);
    let n = chars_of(needle);
    proof {
        lemma_first_match(h@, n@, 0);
    }
    match find(&h, &n, 0) {
        Some(at) => true,
        None => {
            assert forall|k: int| !matches_at(h@, n@, k) by {}
            false
        },
    }
}

/// Whether `hay` begins with `needle`.
pub fn starts_with(hay: &str, needle: &str) -> (r: bool)
    ensures
        r == matches_at(hay@, needle@, 0),
{
    let h = chars_of(hay);
    let n = chars_of(needle);
    matches(&h, &n, 0)
}

/// The string made of the characters of `chars` from `from` up to `to`.
pub(crate) fn slice_string(chars: &Vec<char>, from: usize, to: usize) -> (s: String)
    requires
        from <= to <= chars.len(),
    ensures
        s@ == chars@.subrange(from as int, to as int),
{
    let mut s = String::new();
    let mut i: usize = from;
    while i < to
        invariant
            from <= i <= to,
            to <= chars.len(),
            s@ == chars@.subrange(from as int, i as int),
        decreases to - i,
    {
        push_char(&mut s, chars[i]);
        assert(chars@.subrange(from as int, i + 1) =~= chars@.subrange(from as int, i as int).push(
            chars@[i as int],
        ));
        i += 1;
    }
    s
}

/// The characters of `chars` from position `from` on.
pub(crate) fn tail(chars: &Vec<char>, from: usize) -> (rest: Vec<char>)
    requires
        from <= chars.len(),
    ensures
        rest@ == chars@.subrange(from as int, chars.len() as int),
{
    let mut rest: Vec<char> = Vec::new();
    let mut i: usize = from;
    while i < chars.len()
        invariant
            from <= i <= chars.len(),
            rest@ == chars@.subrange(from as int, i as int),
        decreases chars.len() - i,
    {
        rest.push(chars[i]);
        assert(chars@.subrange(from as int, i + 1) =~= chars@.subrange(from as int, i as int).push(
            chars@[i as int],
        ));
        i += 1;
    }
    rest
}

/// Two texts joined.
pub fn join(a: &str, b: &str) -> (s: String)
    ensures
        s@ == a@ + b@,
{
    let mut s = a.to_owned();
    s.append(b);
    s
}

/// The value of a decimal digit.
pub open spec fn digit_value(c: char) -> Option<nat> {
    if c == '0' {
        Some(0)
    } else if c == '1' {
        Some(1)
    } else if c == '2' {
        Some(2)
    } else if c == '3' {
        Some(3)
    } else if c == '4' {
        Some(4)
    } else if c == '5' {
        Some(5)
    } else if c == '6' {
        Some(6)
    } else if c == '7' {
        Some(7)
    } else if c == '8' {
        Some(8)
    } else if c == '9' {
        Some(9)
    } else {
        None
    }
}

/// The number that a run of decimal digits spells, or none where a
/// character is no digit. The empty run spells zero.
pub open spec fn digits_value(s: Seq<char>) -> Option<nat>
    decreases s.len(),
{
    if s.len() == 0 {
        Some(0)
    } else {
        match (digits_value(s.drop_last()), digit_value(s.last())) {
            (Some(v), Some(d)) => Some(v * 10 + d),
            _ => None,
        }
    }
}

/// The number that a text spells in decimal, as a `u32`: one or more digits,
/// with or without a plus sign before them, that spell a number which a
/// `u32` holds. Any other text spells none.
pub open spec fn decimal_u32_of(s: Seq<char>) -> Option<u32> {
    let digits = if s.len() > 0 && s[0] == '+' {
        s.subrange(1, s.len() as int)
    } else {
        s
    };
    if digits.len() == 0 {
        None
    } else {
        held_by_u32(digits_value(digits))
    }
}

/// A number as a `u32`, if there is one and a `u32` holds it.
pub open spec fn held_by_u32(v: Option<nat>) -> Option<u32> {
    match v {
        Some(v) => if v <= u32::MAX {
            Some(v as u32)
        } else {
            None
        },
        None => None,
    }
}

/// The value of a decimal digit.
pub fn digit_of(c: char) -> (d: Option<u64>)
    ensures
        match d {
            Some(v) => digit_value(c) == Some(v as nat) && v <= 9,
            None => digit_value(c).is_none(),
        },
{
    if c == '0' {
        Some(0)
    } else if c == '1' {
        Some(1)
    } else if c == '2' {
        Some(2)
    } else if c == '3' {
        Some(3)
    } else if c == '4' {
        Some(4)
    } else if c == '5' {
        Some(5)
    } else if c == '6' {
        Some(6)
    } else if c == '7' {
        Some(7)
    } else if c == '8' {
        Some(8)
    } else if c == '9' {
        Some(9)
    } else {
        None
    }
}

/// The number that a text spells in decimal, as a `u32`.
pub fn parse_u32(s: &str) -> (r: Option<u32>)
    ensures
        r == decimal_u32_of(s@),
{
    let chars = chars_of(s);
    let start: usize = if chars.len() > 0 && chars[0] == '+' {
        1
    } else {
        0
    };
    if start == chars.len() {
        return None;
    }
    let ghost digits = chars@.subrange(start as int, chars.len() as int);
    let limit: u64 = 0x1_0000_0000;
    let mut value: u64 = 0;
    let mut i: usize = start;
    assert(digits.take(0) =~= Seq::<char>::empty());
    assert(start == 0 ==> digits =~= s@);
    assert(decimal_u32_of(s@) == held_by_u32(digits_value(digits)));
    while i < chars.len()
        invariant
            start <= i <= chars.len(),
            limit == 0x1_0000_0000,
            digits == chars@.subrange(start as int, chars.len() as int),
            decimal_u32_of(s@) == held_by_u32(digits_value(digits)),
            value <= limit,
            digits_value(digits.take(i - start)) matches Some(v) && value == if v < limit {
                v
            } else {
                limit as nat
            },
        decreases chars.len() - i,
    {
        proof {
            assert(digits.take(i - start + 1).drop_last() =~= digits.take(i - start));
            assert(digits.take(i - start + 1).last() == chars@[i as int]);
        }
        match digit_of(chars[i]) {
            None => {
                proof {
                    lemma_digits_stay_invalid(digits, (i - start + 1) as nat);
                }
                return None;
            },
            Some(d) => {
                let next: u64 = value * 10 + d;
                value = if next < limit {
                    next
                } else {
                    limit
                };
            },
        }
        i += 1;
    }
    assert(digits.take(chars.len() - start) =~= digits);
    if value < limit {
        Some(value as u32)
    } else {
        None
    }
}

/// A run of characters with a prefix that spells no number spells none.
proof fn lemma_digits_stay_invalid(s: Seq<char>, n: nat)
    requires
        n <= s.len(),
        digits_value(s.take(n as int)).is_none(),
    ensures
        digits_value(s).is_none(),
    decreases s.len() - n,
{
    if n < s.len() {
        assert(s.take(n as int + 1).drop_last() =~= s.take(n as int));
        lemma_digits_stay_invalid(s, n + 1);
    } else {
        assert(s.take(n as int) =~= s);
    }
}

/// The hexadecimal digit of a value below sixteen, in lower case.
pub open spec fn hex_digit(d: int) -> char {
    if d == 0 {
        '0'
    } else if d == 1 {
        '1'
    } else if d == 2 {
        '2'
    } else if d == 3 {
        '3'
    } else if d == 4 {
        '4'
    } else if d == 5 {
        '5'
    } else if d == 6 {
        '6'
    } else if d == 7 {
        '7'
    } else if d == 8 {
        '8'
    } else if d == 9 {
        '9'
    } else if d == 10 {
        'a'
    } else if d == 11 {
        'b'
    } else if d == 12 {
        'c'
    } else if d == 13 {
        'd'
    } else if d == 14 {
        'e'
    } else {
        'f'
    }
}

/// The last `n` hexadecimal digits of a number, most significant first.
pub open spec fn hex_digits(x: nat, n: nat) -> Seq<char>
    decreases n,
{
    if n == 0 {
        Seq::empty()
    } else {
        hex_digits(x / 16, (n - 1) as nat).push(hex_digit((x % 16) as int))
    }
}

/// The hexadecimal digit of a value below sixteen, in lower case.
pub(crate) fn hex_char(d: u32) -> (c: char)
    requires
        d < 16,
    ensures
        c == hex_digit(d as int),
{
    if d == 0 {
        '0'
    } else if d == 1 {
        '1'
    } else if d == 2 {
        '2'
    } else if d == 3 {
        '3'
    } else if d == 4 {
        '4'
    } else if d == 5 {
        '5'
    } else if d == 6 {
        '6'
    } else if d == 7 {
        '7'
    } else if d == 8 {
        '8'
    } else if d == 9 {
        '9'
    } else if d == 10 {
        'a'
    } else if d == 11 {
        'b'
    } else if d == 12 {
        'c'
    } else if d == 13 {
        'd'
    } else if d == 14 {
        'e'
    } else {
        'f'
    }
}

/// Appends the last `n` hexadecimal digits of a number, most significant
/// first.
pub fn push_hex(out: &mut String, x: u32, n: u8)
    ensures
        final(out)@ == old(out)@ + hex_digits(x as nat, n as nat),
    decreases n,
{
    if n == 0 {
        assert(out@ + hex_digits(x as nat, 0) =~= out@);
    } else {
        push_hex(out, x / 16, n - 1);
        push_char(out, hex_char(x % 16));
        assert(out@ =~= old(out)@ + hex_digits(x as nat, n as nat));
    }
}

/// A path with another joined onto it, as on a Unix host: an absolute `name`
/// stands for itself, an empty `dir` gives `name`, and otherwise the two are
/// put together with one separator between them, which `dir` may already end
/// with.
pub open spec fn path_join(dir: Seq<char>, name: Seq<char>) -> Seq<char> {
    if name.len() > 0 && name[0] == '/' {
        name
    } else if dir.len() == 0 {
        name
    } else if dir.last() == '/' {
        dir + name
    } else {
        dir + "/"@ + name
    }
}

/// A path with another joined onto it.
pub fn join_path(dir: &str, name: &str) -> (path: String)
    ensures
        path@ == path_join(dir@, name@),
{
    let d = chars_of(dir);
    let n = chars_of(name);
    if n.len() > 0 && n[0] == '/' {
        name.to_owned()
    } else if d.len() == 0 {
        name.to_owned()
    } else if d[d.len() - 1] == '/' {
        join(dir, name)
    } else {
        let mut path = dir.to_owned();
        path.append("/");
        path.append(name);
        path
    }
}

/// A text with every space replaced by an underscore.
pub open spec fn underscored(s: Seq<char>) -> Seq<char> {
    s.map_values(|c: char| if c == ' ' { '_' } else { c })
}

/// A text with every space replaced by an underscore.
pub fn underscore_spaces(s: &str) -> (r: String)
    ensures
        r@ == underscored(s@),
{
    let chars = chars_of(s);
    let mut out: Vec<char> = Vec::new();
    let mut i: usize = 0;
    while i < chars.len()
        invariant
            i <= chars.len(),
            out@ == underscored(chars@.take(i as int)),
        decreases chars.len() - i,
    {
        let c = chars[i];
        out.push(if c == ' ' { '_' } else { c });
        assert(out@ =~= underscored(chars@.take(i + 1)));
        i += 1;
    }
    assert(chars@.take(chars.len() as int) =~= chars@);
    string_of(&out)
}

/// The decimal digit of a value below ten.
pub open spec fn decimal_digit(d: int) -> char {
    if d == 0 {
        '0'
    } else if d == 1 {
        '1'
    } else if d == 2 {
        '2'
    } else if d == 3 {
        '3'
    } else if d == 4 {
        '4'
    } else if d == 5 {
        '5'
    } else if d == 6 {
        '6'
    } else if d == 7 {
        '7'
    } else if d == 8 {
        '8'
    } else {
        '9'
    }
}

/// A number in decimal, without leading zeroes.
pub open spec fn decimal_digits(x: nat) -> Seq<char>
    decreases x,
{
    if x < 10 {
        seq![decimal_digit(x as int)]
    } else {
        decimal_digits(x / 10).push(decimal_digit((x % 10) as int))
    }
}

/// Appends a number in decimal.
pub fn push_decimal(out: &mut String, x: u64)
    ensures
        final(out)@ == old(out)@ + decimal_digits(x as nat),
    decreases x,
{
    if x >= 10 {
        push_decimal(out, x / 10);
    }
    let d: u64 = x % 10;
    let c = if d == 0 {
        '0'
    } else if d == 1 {
        '1'
    } else if d == 2 {
        '2'
    } else if d == 3 {
        '3'
    } else if d == 4 {
        '4'
    } else if d == 5 {
        '5'
    } else if d == 6 {
        '6'
    } else if d == 7 {
        '7'
    } else if d == 8 {
        '8'
    } else {
        '9'
    };
    push_char(out, c);
    assert(out@ =~= old(out)@ + decimal_digits(x as nat));
}

/// A list of strings, by their characters.
pub open spec fn texts(list: Seq<String>) -> Seq<Seq<char>> {
    list.map_values(|s: String| s@)
}

/// A list of pairs of strings, by their characters.
pub open spec fn text_pairs(list: Seq<(String, String)>) -> Seq<(Seq<char>, Seq<char>)> {
    list.map_values(|p: (String, String)| (p.0@, p.1@))
}

/// Appends one string to a list.
pub fn push_text(list: &mut Vec<String>, s: &str)
    ensures
        texts(final(list)@) == texts(old(list)@).push(s@),
{
    list.push(s.to_owned());
    assert(texts(list@) =~= texts(old(list)@).push(s@));
}

/// Appends one pair of strings to a list.
pub fn push_pair(list: &mut Vec<(String, String)>, a: &str, b: &str)
    ensures
        text_pairs(final(list)@) == text_pairs(old(list)@).push((a@, b@)),
{
    list.push((a.to_owned(), b.to_owned()));
    assert(text_pairs(list@) =~= text_pairs(old(list)@).push((a@, b@)));
}

/// A text that may be absent, by its characters.
pub open spec fn opt_text(s: Option<String>) -> Option<Seq<char>> {
    match s {
        Some(t) => Some(t@),
        None => None,
    }
}

/// Whether a character is white space: a tab, a line feed, a vertical tab,
/// a form feed, a carriage return, a space, or one of the other characters
/// that Unicode gives the property White_Space.
pub open spec fn whitespace_of(c: char) -> bool {
    let u = c as u32;
    ||| 0x09 <= u <= 0x0D
    ||| u == 0x20
    ||| u == 0x85
    ||| u == 0xA0
    ||| u == 0x1680
    ||| 0x2000 <= u <= 0x200A
    ||| u == 0x2028
    ||| u == 0x2029
    ||| u == 0x202F
    ||| u == 0x205F
    ||| u == 0x3000
}

/// Whether a character is white space.
pub fn is_whitespace(c: char) -> (r: bool)
    ensures
        r == whitespace_of(c),
{
    let u: u32 = c as u32;
    (0x09 <= u && u <= 0x0D) || u == 0x20 || u == 0x85 || u == 0xA0 || u == 0x1680 || (0x2000 <= u
        && u <= 0x200A) || u == 0x2028 || u == 0x2029 || u == 0x202F || u == 0x205F || u == 0x3000
}

} // verus!
