//! Text as sequences of characters: lines, fields, trimming and decimal numbers.

use vstd::prelude::*;

verus! {

broadcast use vstd::string::group_string_axioms;

/// `String::push` puts the character behind everything that is already there.
pub assume_specification[ String::push ](s: &mut String, c: char)
    ensures
        final(s)@ == old(s)@.push(c),
;

// ---------------------------------------------------------------------------------------------
// Characters
// ---------------------------------------------------------------------------------------------

/// The characters with the Unicode property `White_Space`.
pub open spec fn is_space(c: char) -> bool {
    ||| 0x9 <= c as u32 <= 0xd
    ||| c as u32 == 0x20
    ||| c as u32 == 0x85
    ||| c as u32 == 0xa0
    ||| c as u32 == 0x1680
    ||| 0x2000 <= c as u32 <= 0x200a
    ||| c as u32 == 0x2028
    ||| c as u32 == 0x2029
    ||| c as u32 == 0x202f
    ||| c as u32 == 0x205f
    ||| c as u32 == 0x3000
}

/// Whether `c` is white space, as Unicode counts it.
pub fn is_whitespace(c: char) -> (r: bool)
    ensures
        r == is_space(c),
{
    let n: u32 = c as u32;
    (0x9 <= n && n <= 0xd) || n == 0x20 || n == 0x85 || n == 0xa0 || n == 0x1680 || (0x2000 <= n
        && n <= 0x200a) || n == 0x2028 || n == 0x2029 || n == 0x202f || n == 0x205f || n == 0x3000
}

/// The control characters: the C0 and C1 sets and DEL.
pub open spec fn is_control_char(c: char) -> bool {
    c as u32 <= 0x1f || 0x7f <= c as u32 <= 0x9f
}

/// Whether `c` is a control character.
pub fn is_control(c: char) -> (r: bool)
    ensures
        r == is_control_char(c),
{
    let n: u32 = c as u32;
    n <= 0x1f || (0x7f <= n && n <= 0x9f)
}

/// `c` in lower case, for the letters of ASCII; any other character as it is.
pub open spec fn lower_char(c: char) -> char {
    if 'A' as u32 <= c as u32 <= 'Z' as u32 {
        ((c as u32 + 32) as u32) as char
    } else {
        c
    }
}

/// `s` with the letters of ASCII in lower case.
pub open spec fn lower(s: Seq<char>) -> Seq<char> {
    s.map_values(|c: char| lower_char(c))
}

/// `c` in lower case, for the letters of ASCII.
pub fn ascii_lower(c: char) -> (r: char)
    ensures
        r == lower_char(c),
{
    let n: u32 = c as u32;
    if 0x41 <= n && n <= 0x5a {
        (n as u8 + 32) as char
    } else {
        c
    }
}

// ---------------------------------------------------------------------------------------------
// Strings and vectors of characters
// ---------------------------------------------------------------------------------------------

/// The characters of `s`.
pub fn chars_of(s: &str) -> (v: Vec<char>)
    ensures
        v@ == s@,
{
    let mut v: Vec<char> = Vec::new();
    for c in it: s.chars()
        invariant
            v@ == s@.take(it.index() as int),
            it.seq() == s@,
    {
        v.push(c);
    }
    v
}

/// Whether two strings hold the same characters.
pub fn same(a: &str, b: &str) -> (r: bool)
    ensures
        r == (a@ == b@),
{
    let x: Vec<char> = chars_of(a);
    let y: Vec<char> = chars_of(b);
    if x.len() != y.len() {
        return false;
    }
    let mut i: usize = 0;
    while i < x.len()
        invariant
            i <= x.len(),
            x@ == a@,
            y@ == b@,
            x.len() == y.len(),
            forall|j: int| 0 <= j < i ==> x[j] == y[j],
        decreases x.len() - i,
    {
        if x[i] != y[i] {
            return false;
        }
        i = i + 1;
    }
    assert(a@ =~= b@);
    true
}

/// `a` followed by `b`.
pub fn join(a: &str, b: &str) -> (s: String)
    ensures
        s@ == a@ + b@,
{
    let mut s: String = a.to_owned();
    s.append(b);
    s
}

/// What the debug format of a string prints: the string in double quotes, with escapes.
pub uninterp spec fn debug_text(s: Seq<char>) -> Seq<char>;

/// Calls `<str as std::fmt::Debug>::fmt` through `format!`. Claims that what it prints depends on
/// the string alone.
#[verifier::external_body]
pub(crate) fn debug_of(s: &str) -> (r: String)
    ensures
        r@ == debug_text(s@),
{
    format!("{s:?}")
}

// ---------------------------------------------------------------------------------------------
// Decimal numbers
// ---------------------------------------------------------------------------------------------

/// The digit of `d`.
pub open spec fn digit(d: nat) -> char {
    (('0' as u32) + d) as char
}

/// Whether `c` is a decimal digit of ASCII.
pub open spec fn is_digit(c: char) -> bool {
    '0' as u32 <= c as u32 <= '9' as u32
}

/// The value of the digit `c`.
pub open spec fn digit_value(c: char) -> nat {
    (c as u32 - '0' as u32) as nat
}

/// `n` in decimal, without leading zeros.
pub open spec fn decimal(n: nat) -> Seq<char>
    decreases n,
{
    if n < 10 {
        seq![digit(n)]
    } else {
        decimal(n / 10).push(digit(n % 10))
    }
}

/// `n` in decimal with a minus sign where it is negative.
pub open spec fn signed_decimal(n: int) -> Seq<char> {
    if n < 0 {
        "-"@ + decimal((-n) as nat)
    } else {
        decimal(n as nat)
    }
}

/// Whether `s` is one or more digits.
pub open spec fn all_digits(s: Seq<char>) -> bool {
    s.len() > 0 && forall|i: int| 0 <= i < s.len() ==> is_digit(#[trigger] s[i])
}

/// The number that the digits of `s` write.
pub open spec fn digits_value(s: Seq<char>) -> nat
    decreases s.len(),
{
    if s.len() == 0 {
        0
    } else {
        digits_value(s.drop_last()) * 10 + digit_value(s.last())
    }
}

/// `s` without the plus sign it may start with.
pub open spec fn without_plus(s: Seq<char>) -> Seq<char> {
    if s.len() > 0 && s[0] == '+' {
        s.skip(1)
    } else {
        s
    }
}

/// The number that `s` writes: digits, after at most one plus sign, for a value up to `max`.
pub open spec fn number(s: Seq<char>, max: nat) -> Option<nat> {
    let d = without_plus(s);
    if all_digits(d) && digits_value(d) <= max {
        Some(digits_value(d))
    } else {
        None
    }
}

/// The number that `s` writes: digits, after at most one sign, for a value that an `i64` holds.
pub open spec fn signed_number(s: Seq<char>) -> Option<int> {
    if s.len() > 0 && s[0] == '-' {
        match number_digits(s.skip(1), 0x8000_0000_0000_0000) {
            Some(n) => Some(-(n as int)),
            None => None,
        }
    } else {
        match number(s, 0x7fff_ffff_ffff_ffff) {
            Some(n) => Some(n as int),
            None => None,
        }
    }
}

/// The number that the digits of `s`, and nothing else, write, for a value up to `max`.
pub open spec fn number_digits(s: Seq<char>, max: nat) -> Option<nat> {
    if all_digits(s) && digits_value(s) <= max {
        Some(digits_value(s))
    } else {
        None
    }
}

proof fn lemma_decimal_digits(n: nat)
    ensures
        all_digits(decimal(n)),
        digits_value(decimal(n)) == n,
        n >= 10 ==> decimal(n).len() >= 2,
    decreases n,
{
    if n < 10 {
        let s = decimal(n);
        assert(s.drop_last() =~= Seq::<char>::empty());
        assert(digits_value(s.drop_last()) == 0);
        assert(digit_value(s.last()) == n);
    } else {
        lemma_decimal_digits(n / 10);
        let s = decimal(n);
        assert(s.drop_last() =~= decimal(n / 10));
        assert(s.last() == digit(n % 10));
        assert(digit_value(s.last()) == n % 10);
        assert forall|i: int| 0 <= i < s.len() implies is_digit(#[trigger] s[i]) by {
            if i < s.len() - 1 {
                assert(s[i] == decimal(n / 10)[i]);
            }
        }
    }
}

/// Reading a number that was written in decimal gives the number back.
pub proof fn law_number_of_decimal(n: nat, max: nat)
    requires
        n <= max,
    ensures
        number(decimal(n), max) == Some(n),
{
    lemma_decimal_digits(n);
    assert(is_digit(decimal(n)[0]));
    assert(without_plus(decimal(n)) == decimal(n));
}

/// Reading a signed number that was written in decimal gives the number back.
pub proof fn law_signed_number_of_decimal(n: int)
    requires
        -0x8000_0000_0000_0000 <= n <= 0x7fff_ffff_ffff_ffff,
    ensures
        signed_number(signed_decimal(n)) == Some(n),
{
    reveal_strlit("-");
    if n < 0 {
        let m = (-n) as nat;
        lemma_decimal_digits(m);
        assert(signed_decimal(n).skip(1) =~= decimal(m));
    } else {
        law_number_of_decimal(n as nat, 0x7fff_ffff_ffff_ffff);
        lemma_decimal_digits(n as nat);
        assert(is_digit(decimal(n as nat)[0]));
    }
}

/// What is written in decimal holds digits only.
pub proof fn law_decimal_is_digits(n: nat)
    ensures
        all_digits(decimal(n)),
        digits_value(decimal(n)) == n,
{
    lemma_decimal_digits(n);
}

/// `n` in decimal.
pub fn decimal_of(n: u64) -> (s: String)
    ensures
        s@ == decimal(n as nat),
    decreases n,
{
    if n < 10 {
        let mut s: String = String::new();
        s.push((48 + n as u8) as char);
        assert(s@ =~= decimal(n as nat));
        s
    } else {
        let mut s: String = decimal_of(n / 10);
        s.push((48 + (n % 10) as u8) as char);
        s
    }
}

/// `n` in decimal, with a minus sign where it is negative.
pub fn signed_decimal_of(n: i64) -> (s: String)
    ensures
        s@ == signed_decimal(n as int),
{
    if n < 0 {
        let m: u64 = (-(n as i128)) as u64;
        join("-", decimal_of(m).as_str())
    } else {
        decimal_of(n as u64)
    }
}

/// `n` in decimal with its sign, a plus sign too.
pub open spec fn plus_decimal(n: int) -> Seq<char> {
    if n < 0 {
        "-"@ + decimal((-n) as nat)
    } else {
        "+"@ + decimal(n as nat)
    }
}

/// `n` in decimal with its sign, a plus sign too.
pub fn plus_decimal_of(n: i64) -> (s: String)
    ensures
        s@ == plus_decimal(n as int),
{
    if n < 0 {
        let m: u64 = (-(n as i128)) as u64;
        join("-", decimal_of(m).as_str())
    } else {
        join("+", decimal_of(n as u64).as_str())
    }
}

/// Reading a number that was written with its sign gives the number back.
pub proof fn law_signed_number_of_plus_decimal(n: int)
    requires
        -0x8000_0000_0000_0000 <= n <= 0x7fff_ffff_ffff_ffff,
    ensures
        signed_number(plus_decimal(n)) == Some(n),
{
    reveal_strlit("-");
    reveal_strlit("+");
    if n < 0 {
        let m = (-n) as nat;
        lemma_decimal_digits(m);
        assert(plus_decimal(n).skip(1) =~= decimal(m));
    } else {
        lemma_decimal_digits(n as nat);
        assert(plus_decimal(n).skip(1) =~= decimal(n as nat));
    }
}

/// `n` in decimal, padded on the left with zeros to `width` characters.
pub open spec fn padded(n: nat, width: nat) -> Seq<char> {
    pad_zeros(decimal(n), width)
}

/// `s` with zeros in front, up to `width` characters.
pub open spec fn pad_zeros(s: Seq<char>, width: nat) -> Seq<char> {
    if s.len() >= width {
        s
    } else {
        Seq::new((width - s.len()) as nat, |i: int| '0') + s
    }
}

/// How long a number padded to `width` is: `width`, or as long as it is without padding.
pub proof fn lemma_padded(n: nat, width: nat)
    ensures
        padded(n, width).len() >= width,
        padded(n, width).len() == width || padded(n, width).len() == decimal(n).len(),
        n < 10 ==> decimal(n).len() == 1,
        10 <= n < 100 ==> decimal(n).len() == 2,
        100 <= n < 1_000 ==> decimal(n).len() == 3,
        1_000 <= n < 10_000 ==> decimal(n).len() == 4,
        10_000 <= n < 100_000 ==> decimal(n).len() == 5,
{
    reveal_with_fuel(decimal, 5);
}

/// `n` in decimal, padded on the left with zeros to `width` characters.
pub fn padded_of(n: u64, width: usize) -> (s: String)
    ensures
        s@ == padded(n as nat, width as nat),
{
    let d: String = decimal_of(n);
    let v: Vec<char> = chars_of(d.as_str());
    if v.len() >= width {
        return d;
    }
    let mut z: String = String::new();
    let mut i: usize = 0;
    let k: usize = width - v.len();
    while i < k
        invariant
            i <= k,
            z@ == Seq::new(i as nat, |j: int| '0'),
        decreases k - i,
    {
        z.push('0');
        i = i + 1;
        assert(z@ =~= Seq::new(i as nat, |j: int| '0'));
    }
    z.append(d.as_str());
    z
}

proof fn lemma_digits_value_grows(s: Seq<char>, k: int)
    requires
        0 <= k <= s.len(),
    ensures
        digits_value(s.take(k)) <= digits_value(s),
    decreases s.len() - k,
{
    if k < s.len() {
        lemma_digits_value_grows(s, k + 1);
        assert(s.take(k + 1).drop_last() =~= s.take(k));
    } else {
        assert(s.take(k) =~= s);
    }
}

/// The number that the digits of `v` from `from` on write, where there is at least one and all
/// are digits, for a value up to `max`.
fn digits_from(v: &Vec<char>, from: usize, max: u64) -> (r: Option<u64>)
    requires
        from <= v.len(),
    ensures
        match r {
            Some(n) => number_digits(v@.skip(from as int), max as nat) == Some(n as nat),
            None => number_digits(v@.skip(from as int), max as nat) is None,
        },
{
    let ghost s = v@.skip(from as int);
    if from == v.len() {
        return None;
    }
    let mut n: u64 = 0;
    let mut i: usize = from;
    while i < v.len()
        invariant
            from <= i <= v.len(),
            s == v@.skip(from as int),
            forall|j: int| 0 <= j < i - from ==> is_digit(#[trigger] s[j]),
            n == digits_value(s.take(i - from)),
            n <= max,
        decreases v.len() - i,
    {
        let c: u32 = v[i] as u32;
        assert(s[i - from] == v[i as int]);
        if c < 48 || c > 57 {
            assert(!is_digit(s[i - from]));
            return None;
        }
        proof {
            assert(s.take(i - from + 1).drop_last() =~= s.take(i - from));
            assert(s.take(i - from + 1).last() == v[i as int]);
            lemma_digits_value_grows(s, i - from + 1);
        }
        let d: u64 = (c - 48) as u64;
        let wide: u128 = n as u128 * 10 + d as u128;
        if wide > max as u128 {
            return None;
        }
        n = wide as u64;
        i = i + 1;
    }
    proof {
        assert(s.take(i - from) =~= s);
    }
    Some(n)
}

/// The unsigned number that `s` writes in decimal, up to `max`.
pub fn parse_number(s: &str, max: u64) -> (r: Option<u64>)
    ensures
        match r {
            Some(n) => number(s@, max as nat) == Some(n as nat),
            None => number(s@, max as nat) is None,
        },
{
    let v: Vec<char> = chars_of(s);
    if v.len() > 0 && v[0] == '+' {
        digits_from(&v, 1, max)
    } else {
        assert(s@.skip(0) =~= s@);
        digits_from(&v, 0, max)
    }
}

/// The signed number that `s` writes in decimal.
pub fn parse_signed(s: &str) -> (r: Option<i64>)
    ensures
        match r {
            Some(n) => signed_number(s@) == Some(n as int),
            None => signed_number(s@) is None,
        },
{
    let v: Vec<char> = chars_of(s);
    if v.len() > 0 && v[0] == '-' {
        match digits_from(&v, 1, 0x8000_0000_0000_0000) {
            Some(n) => Some((-(n as i128)) as i64),
            None => None,
        }
    } else {
        match parse_number(s, 0x7fff_ffff_ffff_ffff) {
            Some(n) => Some(n as i64),
            None => None,
        }
    }
}

// ---------------------------------------------------------------------------------------------
// Hexadecimal
// ---------------------------------------------------------------------------------------------

/// The hexadecimal digit of `d`, in lower case.
pub open spec fn hex_digit(d: nat) -> char {
    if d < 10 {
        digit(d)
    } else {
        (('a' as u32) + (d - 10)) as char
    }
}

/// The two hexadecimal digits of a byte.
pub open spec fn hex(b: u8) -> Seq<char> {
    seq![hex_digit((b / 16) as nat), hex_digit((b % 16) as nat)]
}

fn hex_digit_of(d: u8) -> (c: char)
    requires
        d < 16,
    ensures
        c == hex_digit(d as nat),
{
    if d < 10 {
        (48 + d) as char
    } else {
        (87 + d) as char
    }
}

/// The two hexadecimal digits of a byte.
pub fn hex_of(b: u8) -> (s: String)
    ensures
        s@ == hex(b),
{
    let mut s: String = String::new();
    s.push(hex_digit_of(b / 16));
    s.push(hex_digit_of(b % 16));
    assert(s@ =~= hex(b));
    s
}

/// The bytes in hexadecimal, each as two digits.
pub open spec fn hex_words(bytes: Seq<u8>) -> Seq<Seq<char>> {
    bytes.map_values(|b: u8| hex(b))
}

/// The bytes in hexadecimal, with `sep` between each two.
pub fn hex_joined(bytes: &[u8], sep: &str) -> (s: String)
    ensures
        s@ == joined(hex_words(bytes@), sep@),
{
    let mut words: Vec<String> = Vec::new();
    let mut i: usize = 0;
    while i < bytes.len()
        invariant
            i <= bytes.len(),
            texts(words@) == hex_words(bytes@.take(i as int)),
        decreases bytes.len() - i,
    {
        let ghost before = words@;
        let w: String = hex_of(bytes[i]);
        words.push(w);
        i = i + 1;
        assert(texts(words@) =~= texts(before).push(w@));
        assert(hex_words(bytes@.take(i as int)) =~= hex_words(bytes@.take(i - 1)).push(w@));
    }
    assert(bytes@.take(i as int) =~= bytes@);
    join_all(&words, sep)
}

/// A list of bytes in hexadecimal, in square brackets.
pub open spec fn hex_list(bytes: Seq<u8>) -> Seq<char> {
    "["@ + joined(hex_words(bytes), ", "@) + "]"@
}

/// A list of bytes in hexadecimal, in square brackets.
pub fn hex_list_of(bytes: &[u8]) -> (s: String)
    ensures
        s@ == hex_list(bytes@),
{
    let mut s: String = join("[", hex_joined(bytes, ", ").as_str());
    s.append("]");
    s
}

// ---------------------------------------------------------------------------------------------
// Searching and cutting
// ---------------------------------------------------------------------------------------------

/// The place of the first `c` in `s`, or the length of `s` where there is none.
pub open spec fn first_at(s: Seq<char>, c: char) -> int
    decreases s.len(),
{
    if s.len() == 0 || s[0] == c {
        0
    } else {
        1 + first_at(s.skip(1), c)
    }
}

/// What `first_at` finds: `c` itself, or the end, and no `c` before it.
pub proof fn lemma_first_at(s: Seq<char>, c: char)
    ensures
        0 <= first_at(s, c) <= s.len(),
        first_at(s, c) < s.len() ==> s[first_at(s, c)] == c,
        forall|i: int| 0 <= i < first_at(s, c) ==> s[i] != c,
    decreases s.len(),
{
    if s.len() > 0 && s[0] != c {
        lemma_first_at(s.skip(1), c);
        assert forall|i: int| 0 <= i < first_at(s, c) implies s[i] != c by {
            if i > 0 {
                assert(s.skip(1)[i - 1] == s[i]);
            }
        }
    }
}

/// `first_at` is the only place with nothing but other characters before it.
pub proof fn lemma_first_at_unique(s: Seq<char>, c: char, k: int)
    requires
        0 <= k <= s.len(),
        forall|i: int| 0 <= i < k ==> s[i] != c,
        k < s.len() ==> s[k] == c,
    ensures
        first_at(s, c) == k,
{
    lemma_first_at(s, c);
    let f = first_at(s, c);
    if f < k {
        assert(s[f] != c);
    } else if k < f {
        assert(s[k] != c);
    }
}

/// The place of the first `c` in `v`, or its length where there is none.
fn find_char(v: &Vec<char>, c: char) -> (k: usize)
    ensures
        k == first_at(v@, c),
        k <= v.len(),
{
    let mut i: usize = 0;
    while i < v.len()
        invariant
            i <= v.len(),
            forall|j: int| 0 <= j < i ==> v[j] != c,
        decreases v.len() - i,
    {
        if v[i] == c {
            proof {
                lemma_first_at_unique(v@, c, i as int);
            }
            return i;
        }
        i = i + 1;
    }
    proof {
        lemma_first_at_unique(v@, c, i as int);
    }
    i
}

/// What stands before the first `c` in `s` and what stands after it, where there is one.
pub open spec fn cut(s: Seq<char>, c: char) -> Option<(Seq<char>, Seq<char>)> {
    let k = first_at(s, c);
    if k < s.len() {
        Some((s.take(k), s.skip(k + 1)))
    } else {
        None
    }
}

/// What stands before the first `c` in `s` and what stands after it, where there is one.
pub fn split_once<'a>(s: &'a str, c: char) -> (r: Option<(&'a str, &'a str)>)
    ensures
        match r {
            Some((a, b)) => cut(s@, c) == Some((a@, b@)),
            None => cut(s@, c) is None,
        },
{
    let v: Vec<char> = chars_of(s);
    let k: usize = find_char(&v, c);
    if k < v.len() {
        let a: &str = s.substring_char(0, k);
        let b: &str = s.substring_char(k + 1, v.len());
        assert(a@ =~= s@.take(k as int));
        assert(b@ =~= s@.skip(k + 1));
        Some((a, b))
    } else {
        None
    }
}

/// `s` without white space at its start.
pub open spec fn trim_start(s: Seq<char>) -> Seq<char>
    decreases s.len(),
{
    if s.len() > 0 && is_space(s[0]) {
        trim_start(s.skip(1))
    } else {
        s
    }
}

/// `s` without white space at its end.
pub open spec fn trim_end(s: Seq<char>) -> Seq<char>
    decreases s.len(),
{
    if s.len() > 0 && is_space(s.last()) {
        trim_end(s.drop_last())
    } else {
        s
    }
}

/// `s` without white space at either end.
pub open spec fn trimmed(s: Seq<char>) -> Seq<char> {
    trim_end(trim_start(s))
}

/// `s` without white space at its start.
pub fn trim_left<'a>(s: &'a str) -> (r: &'a str)
    ensures
        r@ == trim_start(s@),
{
    let v: Vec<char> = chars_of(s);
    let mut i: usize = 0;
    assert(s@.skip(0) =~= s@);
    while i < v.len() && is_whitespace(v[i])
        invariant
            i <= v.len(),
            v@ == s@,
            trim_start(s@) == trim_start(s@.skip(i as int)),
        decreases v.len() - i,
    {
        assert(s@.skip(i as int).skip(1) =~= s@.skip(i + 1));
        i = i + 1;
    }
    let r: &str = s.substring_char(i, v.len());
    assert(r@ =~= s@.skip(i as int));
    r
}

/// `s` without white space at its end.
pub fn trim_right<'a>(s: &'a str) -> (r: &'a str)
    ensures
        r@ == trim_end(s@),
{
    let v: Vec<char> = chars_of(s);
    let mut k: usize = v.len();
    assert(s@.take(k as int) =~= s@);
    while k > 0 && is_whitespace(v[k - 1])
        invariant
            k <= v.len(),
            v@ == s@,
            trim_end(s@) == trim_end(s@.take(k as int)),
        decreases k,
    {
        assert(s@.take(k as int).drop_last() =~= s@.take(k - 1));
        k = k - 1;
    }
    let r: &str = s.substring_char(0, k);
    assert(r@ =~= s@.take(k as int));
    r
}

/// `s` without white space at either end.
pub fn trim<'a>(s: &'a str) -> (r: &'a str)
    ensures
        r@ == trimmed(s@),
{
    trim_right(trim_left(s))
}

/// Whether `s` starts with `p`.
pub open spec fn begins(s: Seq<char>, p: Seq<char>) -> bool {
    p.len() <= s.len() && s.take(p.len() as int) == p
}

/// Whether `p` stands at the end of `s`.
pub open spec fn ends(s: Seq<char>, p: Seq<char>) -> bool {
    p.len() <= s.len() && s.skip(s.len() - p.len()) == p
}

/// Whether `s` starts with `p`.
pub fn starts_with(s: &str, p: &str) -> (r: bool)
    ensures
        r == begins(s@, p@),
{
    let v: Vec<char> = chars_of(s);
    let q: Vec<char> = chars_of(p);
    if q.len() > v.len() {
        return false;
    }
    let head: &str = s.substring_char(0, q.len());
    assert(head@ =~= s@.take(p@.len() as int));
    same(head, p)
}

/// What follows `p` in `s`, where `s` starts with `p`.
pub fn strip_prefix<'a>(s: &'a str, p: &str) -> (r: Option<&'a str>)
    ensures
        match r {
            Some(t) => begins(s@, p@) && t@ == s@.skip(p@.len() as int),
            None => !begins(s@, p@),
        },
{
    if starts_with(s, p) {
        let n: usize = s.unicode_len();
        let k: usize = p.unicode_len();
        let t: &str = s.substring_char(k, n);
        assert(t@ =~= s@.skip(p@.len() as int));
        Some(t)
    } else {
        None
    }
}

/// `s` with the letters of ASCII in lower case.
pub fn to_lower(s: &str) -> (r: String)
    ensures
        r@ == lower(s@),
{
    let v: Vec<char> = chars_of(s);
    let mut r: String = String::new();
    let mut i: usize = 0;
    while i < v.len()
        invariant
            i <= v.len(),
            r@ == lower(v@.take(i as int)),
        decreases v.len() - i,
    {
        r.push(ascii_lower(v[i]));
        i = i + 1;
        assert(r@ =~= lower(v@.take(i as int)));
    }
    assert(v@.take(i as int) =~= s@);
    r
}

/// Whether two strings are the same but for the case of the letters of ASCII.
pub fn same_ignoring_case(a: &str, b: &str) -> (r: bool)
    ensures
        r == (lower(a@) == lower(b@)),
{
    same(to_lower(a).as_str(), to_lower(b).as_str())
}

/// Whether `part` stands in `s` at `i`.
pub open spec fn stands_at(s: Seq<char>, part: Seq<char>, i: int) -> bool {
    0 <= i <= s.len() - part.len() && s.subrange(i, i + part.len()) == part
}

/// Whether `part` stands anywhere in `s`.
pub open spec fn holds(s: Seq<char>, part: Seq<char>) -> bool {
    exists|i: int| #[trigger] stands_at(s, part, i)
}

/// Whether `part` stands anywhere in `s`.
pub fn contains(s: &str, part: &str) -> (r: bool)
    ensures
        r == holds(s@, part@),
{
    let n: usize = s.unicode_len();
    let k: usize = part.unicode_len();
    if k > n {
        assert(forall|i: int| !(#[trigger] stands_at(s@, part@, i)));
        return false;
    }
    let mut i: usize = 0;
    while i <= n - k
        invariant
            n == s@.len(),
            k == part@.len(),
            k <= n,
            i <= n - k + 1,
            forall|j: int| 0 <= j < i ==> !(#[trigger] stands_at(s@, part@, j)),
        decreases n - k + 1 - i,
    {
        if same(s.substring_char(i, i + k), part) {
            assert(stands_at(s@, part@, i as int));
            return true;
        }
        assert(!stands_at(s@, part@, i as int));
        if i == n - k {
            assert forall|j: int| !(#[trigger] stands_at(s@, part@, j)) by {
                if 0 <= j <= n - k && j < i {
                }
            }
            return false;
        }
        i = i + 1;
    }
    false
}

/// `n` times `c`.
pub open spec fn run_of(c: char, n: nat) -> Seq<char> {
    Seq::new(n, |i: int| c)
}

/// `n` times `c`.
pub fn repeat(c: char, n: usize) -> (s: String)
    ensures
        s@ == run_of(c, n as nat),
{
    let mut s: String = String::new();
    let mut i: usize = 0;
    while i < n
        invariant
            i <= n,
            s@ == run_of(c, i as nat),
        decreases n - i,
    {
        s.push(c);
        i = i + 1;
        assert(s@ =~= run_of(c, i as nat));
    }
    s
}

/// `s` with spaces behind it, up to `width` characters.
pub open spec fn pad_right(s: Seq<char>, width: nat) -> Seq<char> {
    if s.len() >= width {
        s
    } else {
        s + run_of(' ', (width - s.len()) as nat)
    }
}

/// `s` with spaces in front, up to `width` characters.
pub open spec fn pad_left(s: Seq<char>, width: nat) -> Seq<char> {
    if s.len() >= width {
        s
    } else {
        run_of(' ', (width - s.len()) as nat) + s
    }
}

/// `s` with spaces behind it, up to `width` characters.
pub fn left_aligned(s: &str, width: usize) -> (r: String)
    ensures
        r@ == pad_right(s@, width as nat),
{
    let n: usize = s.unicode_len();
    if n >= width {
        s.to_owned()
    } else {
        join(s, repeat(' ', width - n).as_str())
    }
}

/// `s` with spaces in front, up to `width` characters.
pub fn right_aligned(s: &str, width: usize) -> (r: String)
    ensures
        r@ == pad_left(s@, width as nat),
{
    let n: usize = s.unicode_len();
    if n >= width {
        s.to_owned()
    } else {
        join(repeat(' ', width - n).as_str(), s)
    }
}

/// The parts one after the other, with `sep` between each two.
pub open spec fn joined(parts: Seq<Seq<char>>, sep: Seq<char>) -> Seq<char>
    decreases parts.len(),
{
    if parts.len() == 0 {
        Seq::empty()
    } else if parts.len() == 1 {
        parts[0]
    } else {
        joined(parts.drop_last(), sep) + sep + parts.last()
    }
}

/// The parts one after the other, with `sep` between each two.
pub fn join_all(parts: &Vec<String>, sep: &str) -> (r: String)
    ensures
        r@ == joined(texts(parts@), sep@),
{
    let mut r: String = String::new();
    let mut i: usize = 0;
    assert(texts(parts@).take(0) =~= Seq::<Seq<char>>::empty());
    while i < parts.len()
        invariant
            i <= parts.len(),
            r@ == joined(texts(parts@).take(i as int), sep@),
        decreases parts.len() - i,
    {
        let ghost t = texts(parts@).take(i + 1);
        assert(t.drop_last() =~= texts(parts@).take(i as int));
        assert(t.last() == parts@[i as int]@);
        if i > 0 {
            r.append(sep);
            r.append(parts[i].as_str());
        } else {
            r = parts[i].as_str().to_owned();
        }
        i = i + 1;
    }
    assert(texts(parts@).take(i as int) =~= texts(parts@));
    r
}

/// The place of the last `c` in `s`, or -1 where there is none.
pub open spec fn last_at(s: Seq<char>, c: char) -> int
    decreases s.len(),
{
    if s.len() == 0 {
        -1
    } else if s.last() == c {
        s.len() - 1
    } else {
        last_at(s.drop_last(), c)
    }
}

/// What stands before the last `c` in `s` and what stands after it, where there is one.
pub open spec fn cut_last(s: Seq<char>, c: char) -> Option<(Seq<char>, Seq<char>)> {
    let k = last_at(s, c);
    if k >= 0 {
        Some((s.take(k), s.skip(k + 1)))
    } else {
        None
    }
}

/// What stands before the last `c` in `s` and what stands after it, where there is one.
pub fn rsplit_once<'a>(s: &'a str, c: char) -> (r: Option<(&'a str, &'a str)>)
    ensures
        match r {
            Some((a, b)) => cut_last(s@, c) == Some((a@, b@)),
            None => cut_last(s@, c) is None,
        },
{
    let v: Vec<char> = chars_of(s);
    let mut k: usize = v.len();
    assert(s@.take(k as int) =~= s@);
    while k > 0
        invariant
            k <= v.len(),
            v@ == s@,
            last_at(s@, c) == last_at(s@.take(k as int), c),
        decreases k,
    {
        assert(s@.take(k as int).drop_last() =~= s@.take(k - 1));
        assert(s@.take(k as int).last() == v[k - 1]);
        if v[k - 1] == c {
            let a: &str = s.substring_char(0, k - 1);
            let b: &str = s.substring_char(k, v.len());
            assert(a@ =~= s@.take(k - 1));
            assert(b@ =~= s@.skip(k as int));
            return Some((a, b));
        }
        k = k - 1;
    }
    None
}

/// `s` without the characters `c` at its start.
pub open spec fn unled(s: Seq<char>, c: char) -> Seq<char>
    decreases s.len(),
{
    if s.len() > 0 && s[0] == c {
        unled(s.skip(1), c)
    } else {
        s
    }
}

/// `s` without the characters `c` at its end.
pub open spec fn untrailed(s: Seq<char>, c: char) -> Seq<char>
    decreases s.len(),
{
    if s.len() > 0 && s.last() == c {
        untrailed(s.drop_last(), c)
    } else {
        s
    }
}

/// `s` without the characters `c` at either end.
pub fn trim_matches<'a>(s: &'a str, c: char) -> (r: &'a str)
    ensures
        r@ == untrailed(unled(s@, c), c),
{
    let v: Vec<char> = chars_of(s);
    let mut i: usize = 0;
    assert(s@.skip(0) =~= s@);
    while i < v.len() && v[i] == c
        invariant
            i <= v.len(),
            v@ == s@,
            unled(s@, c) == unled(s@.skip(i as int), c),
        decreases v.len() - i,
    {
        assert(s@.skip(i as int).skip(1) =~= s@.skip(i + 1));
        i = i + 1;
    }
    let ghost t = s@.skip(i as int);
    let mut k: usize = v.len();
    assert(s@.subrange(i as int, k as int) =~= t);
    while k > i && v[k - 1] == c
        invariant
            i <= k <= v.len(),
            v@ == s@,
            untrailed(t, c) == untrailed(s@.subrange(i as int, k as int), c),
        decreases k,
    {
        assert(s@.subrange(i as int, k as int).drop_last() =~= s@.subrange(i as int, k - 1));
        assert(s@.subrange(i as int, k as int).last() == v[k - 1]);
        k = k - 1;
    }
    assert(k > i ==> s@.subrange(i as int, k as int).last() == v[k - 1]);
    s.substring_char(i, k)
}

/// `s` without the characters `c` at its end.
pub fn trim_end_matches<'a>(s: &'a str, c: char) -> (r: &'a str)
    ensures
        r@ == untrailed(s@, c),
{
    let v: Vec<char> = chars_of(s);
    let mut k: usize = v.len();
    assert(s@.take(k as int) =~= s@);
    while k > 0 && v[k - 1] == c
        invariant
            k <= v.len(),
            v@ == s@,
            untrailed(s@, c) == untrailed(s@.take(k as int), c),
        decreases k,
    {
        assert(s@.take(k as int).drop_last() =~= s@.take(k - 1));
        k = k - 1;
    }
    assert(s@.subrange(0, k as int) =~= s@.take(k as int));
    s.substring_char(0, k)
}

/// The length of the word that `s` starts with: up to the first white space.
pub open spec fn word_len(s: Seq<char>) -> int
    decreases s.len(),
{
    if s.len() == 0 || is_space(s[0]) {
        0
    } else {
        1 + word_len(s.skip(1))
    }
}

proof fn lemma_word_len(s: Seq<char>)
    ensures
        0 <= word_len(s) <= s.len(),
    decreases s.len(),
{
    if s.len() > 0 && !is_space(s[0]) {
        lemma_word_len(s.skip(1));
    }
}

proof fn lemma_trim_start_len(s: Seq<char>)
    ensures
        trim_start(s).len() <= s.len(),
        trim_start(s).len() > 0 ==> !is_space(trim_start(s)[0]),
    decreases s.len(),
{
    if s.len() > 0 && is_space(s[0]) {
        lemma_trim_start_len(s.skip(1));
    }
}

/// The words of `s`: what stands between white space.
pub open spec fn words(s: Seq<char>) -> Seq<Seq<char>>
    decreases s.len(),
    via words_decreases
{
    let t = trim_start(s);
    if t.len() == 0 {
        Seq::empty()
    } else {
        seq![t.take(word_len(t))] + words(t.skip(word_len(t)))
    }
}

#[via_fn]
proof fn words_decreases(s: Seq<char>) {
    let t = trim_start(s);
    lemma_trim_start_len(s);
    lemma_word_len(t);
    if t.len() > 0 {
        assert(word_len(t) >= 1) by {
            lemma_word_len(t.skip(1));
        }
    }
}

/// The words of `s`.
pub fn words_of<'a>(s: &'a str) -> (r: Vec<&'a str>)
    ensures
        views(r@) == words(s@),
{
    let mut out: Vec<&'a str> = Vec::new();
    let mut rest: &'a str = trim_left(s);
    let ghost mut left = s@;
    assert(views(out@) + words(s@) =~= words(s@));
    while !rest.is_empty()
        invariant
            rest@ == trim_start(left),
            views(out@) + words(left) == words(s@),
        decreases rest@.len(),
    {
        let ghost before = out@;
        let v: Vec<char> = chars_of(rest);
        proof {
            lemma_trim_start_len(left);
        }
        let mut k: usize = 0;
        assert(rest@.skip(0) =~= rest@);
        while k < v.len() && !is_whitespace(v[k])
            invariant
                k <= v.len(),
                v@ == rest@,
                word_len(rest@) == k + word_len(rest@.skip(k as int)),
            decreases v.len() - k,
        {
            assert(rest@.skip(k as int).skip(1) =~= rest@.skip(k + 1));
            k = k + 1;
        }
        assert(k == word_len(rest@));
        assert(k >= 1);
        let word: &'a str = rest.substring_char(0, k);
        assert(word@ =~= rest@.take(k as int));
        let after: &'a str = rest.substring_char(k, v.len());
        assert(after@ =~= rest@.skip(k as int));
        out.push(word);
        proof {
            assert(views(out@) =~= views(before).push(word@));
            assert(views(out@) + words(after@) =~= views(before) + words(left));
            left = after@;
            lemma_trim_start_len(after@);
        }
        rest = trim_left(after);
    }
    assert(views(out@) =~= views(out@) + words(left));
    out
}

// ---------------------------------------------------------------------------------------------
// Lines
// ---------------------------------------------------------------------------------------------

/// `s` without the carriage return it may end with.
pub open spec fn without_cr(s: Seq<char>) -> Seq<char> {
    if s.len() > 0 && s.last() == '\r' {
        s.drop_last()
    } else {
        s
    }
}

/// The lines of `s`: each ends with a line feed, or a carriage return and a line feed, and the
/// last one may lack its end.
pub open spec fn lines(s: Seq<char>) -> Seq<Seq<char>>
    decreases s.len(),
    via lines_decreases
{
    if s.len() == 0 {
        Seq::empty()
    } else {
        let k = first_at(s, '\n');
        if k < s.len() {
            seq![without_cr(s.take(k))] + lines(s.skip(k + 1))
        } else {
            seq![s]
        }
    }
}

#[via_fn]
proof fn lines_decreases(s: Seq<char>) {
    lemma_first_at(s, '\n');
}

/// The views of a list of strings.
pub open spec fn views(v: Seq<&str>) -> Seq<Seq<char>> {
    v.map_values(|s: &str| s@)
}

/// The views of a list of owned strings.
pub open spec fn texts(v: Seq<String>) -> Seq<Seq<char>> {
    v.map_values(|s: String| s@)
}

/// The lines of `s`.
pub fn lines_of<'a>(s: &'a str) -> (r: Vec<&'a str>)
    ensures
        views(r@) == lines(s@),
{
    let v: Vec<char> = chars_of(s);
    let mut out: Vec<&'a str> = Vec::new();
    let mut from: usize = 0;
    assert(s@.skip(0) =~= s@);
    assert(views(out@) + lines(s@) =~= lines(s@));
    while from < v.len()
        invariant
            from <= v.len(),
            v@ == s@,
            views(out@) + lines(s@.skip(from as int)) == lines(s@),
        decreases v.len() - from,
    {
        let mut k: usize = from;
        while k < v.len() && v[k] != '\n'
            invariant
                from <= k <= v.len(),
                forall|j: int| from <= j < k ==> v[j] != '\n',
            decreases v.len() - k,
        {
            k = k + 1;
        }
        let ghost rest = s@.skip(from as int);
        let ghost before = out@;
        proof {
            assert forall|i: int| 0 <= i < k - from implies rest[i] != '\n' by {
                assert(rest[i] == v[from + i]);
            }
            lemma_first_at_unique(rest, '\n', k - from);
        }
        if k < v.len() {
            let mut end: usize = k;
            if k > from && v[k - 1] == '\r' {
                end = k - 1;
            }
            let line: &str = s.substring_char(from, end);
            proof {
                assert(rest.take(k - from).len() > 0 ==> rest.take(k - from).last() == v[k - 1]);
                assert(line@ =~= without_cr(rest.take(k - from)));
                assert(rest.skip(k - from + 1) =~= s@.skip(k + 1));
            }
            out.push(line);
            proof {
                assert(views(out@) =~= views(before).push(line@));
                assert(views(out@) + lines(s@.skip(k + 1)) =~= views(before) + lines(rest));
            }
            from = k + 1;
        } else {
            let line: &str = s.substring_char(from, k);
            assert(line@ =~= rest);
            out.push(line);
            proof {
                assert(views(out@) =~= views(before).push(line@));
                assert(s@.skip(k as int) =~= Seq::<char>::empty());
                assert(views(out@) + lines(s@.skip(k as int)) =~= views(before) + lines(rest));
            }
            from = k;
        }
    }
    proof {
        assert(s@.skip(from as int) =~= Seq::<char>::empty());
        assert(views(out@) =~= views(out@) + lines(s@.skip(from as int)));
    }
    out
}

/// A first line that holds no line feed and does not end in a carriage return is read back as it
/// is, and the lines behind it as if it were not there.
pub proof fn law_first_line(line: Seq<char>, rest: Seq<char>)
    requires
        forall|i: int| 0 <= i < line.len() ==> line[i] != '\n',
        line.len() > 0 ==> line.last() != '\r',
    ensures
        lines(line + seq!['\n'] + rest) == seq![line] + lines(rest),
{
    let s = line + seq!['\n'] + rest;
    lemma_first_at_unique(s, '\n', line.len() as int);
    assert(s.take(line.len() as int) =~= line);
    assert(s.skip(line.len() as int + 1) =~= rest);
}

/// A list of lines as one text: each is ended by a line feed.
pub open spec fn lines_text(ls: Seq<Seq<char>>) -> Seq<char>
    decreases ls.len(),
{
    if ls.len() == 0 {
        Seq::empty()
    } else {
        ls[0] + seq!['\n'] + lines_text(ls.skip(1))
    }
}

/// Whether a line is read back as it was written: it holds no line feed, and does not end in a
/// carriage return.
pub open spec fn is_line(s: Seq<char>) -> bool {
    (forall|i: int| 0 <= i < s.len() ==> s[i] != '\n') && (s.len() > 0 ==> s.last() != '\r')
}

/// The lines of a text made of lines are these lines.
pub proof fn law_lines_are_read_back(ls: Seq<Seq<char>>)
    requires
        forall|i: int| 0 <= i < ls.len() ==> is_line(#[trigger] ls[i]),
    ensures
        lines(lines_text(ls)) == ls,
    decreases ls.len(),
{
    if ls.len() > 0 {
        let rest = ls.skip(1);
        assert forall|i: int| 0 <= i < rest.len() implies is_line(#[trigger] rest[i]) by {
            assert(rest[i] == ls[i + 1]);
        }
        law_lines_are_read_back(rest);
        assert(is_line(ls[0]));
        law_first_line(ls[0], lines_text(rest));
        assert(seq![ls[0]] + rest =~= ls);
    } else {
        assert(lines_text(ls) =~= Seq::<char>::empty());
        assert(lines(lines_text(ls)) =~= ls);
    }
}

proof fn lemma_lines_text_push(ls: Seq<Seq<char>>, line: Seq<char>)
    ensures
        lines_text(ls.push(line)) == lines_text(ls) + line + seq!['\n'],
    decreases ls.len(),
{
    let more = ls.push(line);
    if ls.len() > 0 {
        assert(more.skip(1) =~= ls.skip(1).push(line));
        lemma_lines_text_push(ls.skip(1), line);
        assert(lines_text(more) =~= lines_text(ls) + line + seq!['\n']);
    } else {
        assert(more.skip(1) =~= Seq::<Seq<char>>::empty());
        assert(lines_text(more.skip(1)) =~= Seq::<char>::empty());
        assert(more[0] == line);
        assert(lines_text(more) =~= lines_text(ls) + line + seq!['\n']);
    }
}

/// Lines as they are written into a file.
pub struct FileText {
    text: String,
    lines: Ghost<Seq<Seq<char>>>,
}

impl FileText {
    #[verifier::type_invariant]
    spec fn consistent(self) -> bool {
        self.text@ == lines_text(self.lines@)
    }

    /// The lines so far.
    pub closed spec fn lines(self) -> Seq<Seq<char>> {
        self.lines@
    }

    /// No lines yet.
    pub fn new() -> (p: FileText)
        ensures
            p.lines() == Seq::<Seq<char>>::empty(),
    {
        let text: String = String::new();
        let ghost none = Seq::<Seq<char>>::empty();
        assert(text@ =~= lines_text(none));
        FileText { text, lines: Ghost(none) }
    }

    /// With one more line.
    pub fn line(self, line: &str) -> (p: FileText)
        ensures
            p.lines() == self.lines().push(line@),
    {
        proof {
            use_type_invariant(&self);
            lemma_lines_text_push(self.lines@, line@);
        }
        let ghost more = self.lines@.push(line@);
        let mut text: String = self.text;
        text.append(line);
        text.push('\n');
        assert(text@ =~= lines_text(more));
        FileText { text, lines: Ghost(more) }
    }

    /// The text of the lines.
    pub fn text(self) -> (s: String)
        ensures
            s@ == lines_text(self.lines()),
    {
        proof {
            use_type_invariant(&self);
        }
        self.text
    }
}

// ---------------------------------------------------------------------------------------------
// Lines of the form `key=value`
// ---------------------------------------------------------------------------------------------

/// The key and the value of a line, each without white space round it, where it has a `=`.
pub open spec fn field_of(line: Seq<char>) -> Option<(Seq<char>, Seq<char>)> {
    match cut(line, '=') {
        Some((k, v)) => Some((trimmed(k), trimmed(v))),
        None => None,
    }
}

/// The key and the value of a line, each without white space round it, where it has a `=`.
pub fn field<'a>(line: &'a str) -> (r: Option<(&'a str, &'a str)>)
    ensures
        match r {
            Some((k, v)) => field_of(line@) == Some((k@, v@)),
            None => field_of(line@) is None,
        },
{
    match split_once(line, '=') {
        Some((k, v)) => Some((trim(k), trim(v))),
        None => None,
    }
}

/// The line of a key and a value.
pub open spec fn field_line(key: Seq<char>, value: Seq<char>) -> Seq<char> {
    key + "="@ + value
}

/// The line of a key and a value.
pub fn key_value(key: &str, value: &str) -> (s: String)
    ensures
        s@ == field_line(key@, value@),
{
    let mut s: String = join(key, "=");
    s.append(value);
    s
}

/// Whether a text has no white space at either end.
pub open spec fn is_clean(s: Seq<char>) -> bool {
    s.len() > 0 ==> !is_space(s[0]) && !is_space(s.last())
}

/// Whether a text can stand as a value in a line: it has no white space at either end and no line
/// feed anywhere.
pub open spec fn is_value(s: Seq<char>) -> bool {
    is_clean(s) && forall|i: int| 0 <= i < s.len() ==> s[i] != '\n'
}

/// Trimming leaves a text without white space at either end as it is.
pub proof fn lemma_trimmed_clean(s: Seq<char>)
    requires
        is_clean(s),
    ensures
        trimmed(s) == s,
{
}

/// A key and a value are read back from their line.
pub proof fn law_field_is_read_back(key: Seq<char>, value: Seq<char>)
    requires
        is_value(key),
        forall|i: int| 0 <= i < key.len() ==> key[i] != '=',
        is_value(value),
    ensures
        field_of(field_line(key, value)) == Some((key, value)),
        is_line(field_line(key, value)),
{
    reveal_strlit("=");
    let line = field_line(key, value);
    lemma_first_at_unique(line, '=', key.len() as int);
    assert(line.take(key.len() as int) =~= key);
    assert(line.skip(key.len() as int + 1) =~= value);
    lemma_trimmed_clean(key);
    lemma_trimmed_clean(value);
    assert(line.last() == if value.len() > 0 {
        value.last()
    } else {
        '='
    });
}

/// What is written in decimal can stand as a value.
pub proof fn lemma_decimal_is_value(n: nat)
    ensures
        is_value(decimal(n)),
        decimal(n).len() > 0,
{
    lemma_decimal_digits(n);
    let s = decimal(n);
    assert(is_digit(s[0]));
    assert(is_digit(s.last()));
    assert forall|i: int| 0 <= i < s.len() implies s[i] != '\n' by {
        assert(is_digit(s[i]));
    }
}

/// Zeros in front do not change a number: padded, it holds digits only, and they write it.
pub proof fn lemma_padded_value(n: nat, width: nat)
    ensures
        all_digits(padded(n, width)),
        digits_value(padded(n, width)) == n,
        padded(n, width).len() >= width,
        n < 100 && width == 2 ==> padded(n, width).len() == 2,
        n < 10_000 && width == 4 ==> padded(n, width).len() == 4,
{
    lemma_padded(n, width);
    lemma_decimal_digits(n);
    let d = decimal(n);
    if d.len() < width {
        let k = (width - d.len()) as nat;
        lemma_zeros_in_front(k, d);
        assert(padded(n, width) =~= run_of('0', k) + d);
    }
}

proof fn lemma_zeros_in_front(k: nat, d: Seq<char>)
    requires
        all_digits(d),
    ensures
        all_digits(run_of('0', k) + d),
        digits_value(run_of('0', k) + d) == digits_value(d),
    decreases d.len(),
{
    let z = run_of('0', k);
    let s = z + d;
    assert forall|i: int| 0 <= i < s.len() implies is_digit(#[trigger] s[i]) by {
        if i >= k {
            assert(s[i] == d[i - k]);
        }
    }
    assert(s.last() == d.last());
    assert(s.drop_last() =~= z + d.drop_last());
    assert(digits_value(s) == digits_value(z + d.drop_last()) * 10 + digit_value(d.last()));
    assert(digits_value(d) == digits_value(d.drop_last()) * 10 + digit_value(d.last()));
    if d.len() == 1 {
        assert(d.drop_last() =~= Seq::<char>::empty());
        assert(digits_value(d.drop_last()) == 0);
        assert(z + d.drop_last() =~= z);
        lemma_zeros(k);
    } else {
        let e = d.drop_last();
        assert forall|i: int| 0 <= i < e.len() implies is_digit(#[trigger] e[i]) by {
            assert(e[i] == d[i]);
        }
        lemma_zeros_in_front(k, e);
    }
}

proof fn lemma_zeros(k: nat)
    ensures
        digits_value(run_of('0', k)) == 0,
    decreases k,
{
    let z = run_of('0', k);
    if k > 0 {
        assert(z.drop_last() =~= run_of('0', (k - 1) as nat));
        lemma_zeros((k - 1) as nat);
    }
}

/// The digits of a number count ten times as much with each place: another digit at the end makes it
/// ten times as large, and adds its own value, which is how far it is from zero.
pub proof fn law_digits_count_in_tens(s: Seq<char>, c: char, n: nat, d: nat)
    requires
        d < 10,
        c as u32 == 48 + d,
    ensures
        digits_value(s.push(c)) == digits_value(s) * 10 + d,
        digits_value(Seq::<char>::empty()) == 0,
        n > 0 ==> decimal(n * 10 + d) == decimal(n).push(c),
        decimal(d) == seq![c],
{
    assert(s.push(c).drop_last() =~= s);
    assert((n * 10 + d) / 10 == n && (n * 10 + d) % 10 == d);
    let x = digit(d);
    assert(x as u32 == c as u32);
    assert(x == c);
}

/// A text is read as a number exactly where it is digits, behind at most one plus sign, and within the
/// limit; and then as the number that the digits write.
pub proof fn law_only_digits_are_a_number(s: &str, max: u64, r: Option<u64>, plus: &str, q: Option<u64>)
    requires
        call_ensures(parse_number, (s, max), r),
        call_ensures(parse_number, (plus, max), q),
        s@.len() > 0 ==> s@[0] != '+',
        plus@ == seq!['+'] + s@,
    ensures
        r is Some <==> s@.len() > 0 && (forall|i: int|
            0 <= i < s@.len() ==> 48 <= (#[trigger] s@[i]) as u32 <= 57) && digits_value(s@) <= max,
        r is Some ==> r->0 == digits_value(s@),
        q == r,
{
    assert(plus@.skip(1) =~= s@);
}

/// Blanks, tabs and the ends of lines are white space and no control-free ASCII character but the blank
/// is; a control character is one below the blank, or one from DEL to the end of C1.
pub proof fn law_blanks_are_white_space(c: char, space: bool, control: bool)
    requires
        call_ensures(is_whitespace, (c,), space),
        call_ensures(is_control, (c,), control),
    ensures
        c == ' ' || c == '\t' || c == '\n' || c == '\r' ==> space,
        '!' as u32 <= c as u32 <= '~' as u32 ==> !space,
        (c as u32) < ' ' as u32 ==> control,
        ' ' as u32 <= c as u32 <= '~' as u32 ==> !control,
        0x7f <= c as u32 <= 0x9f ==> control,
        c as u32 > 0x9f ==> !control,
{
}

/// Only the letters of ASCII have another lower case, and theirs is as far into the small letters as
/// they are into the capitals.
pub proof fn law_lower_case_is_of_letters(c: char, r: char)
    requires
        call_ensures(ascii_lower, (c,), r),
    ensures
        'A' as u32 <= c as u32 <= 'Z' as u32 ==> r as u32 - 'a' as u32 == c as u32 - 'A' as u32,
        !('A' as u32 <= c as u32 <= 'Z' as u32) ==> r == c,
{
}

/// A text in lower case has the same length, and its characters are in lower case one by one; two texts
/// are the same but for case exactly where that is so of both.
pub proof fn law_a_text_is_lowered_character_by_character(
    a: &str,
    b: &str,
    low: String,
    r: bool,
    i: int,
    c: char,
)
    requires
        call_ensures(to_lower, (a,), low),
        call_ensures(same_ignoring_case, (a, b), r),
        0 <= i < a@.len(),
        call_ensures(ascii_lower, (a@[i],), c),
    ensures
        low@.len() == a@.len(),
        low@[i] == c,
        a@ == b@ ==> r,
        r ==> a@.len() == b@.len(),
        r && i < b@.len() && !('A' as u32 <= a@[i] as u32 <= 'Z' as u32) && !('A' as u32
            <= b@[i] as u32 <= 'Z' as u32) ==> a@[i] == b@[i],
{
    if r {
        assert(lower(a@).len() == lower(b@).len());
        assert(lower(a@)[i] == lower_char(a@[i]));
        assert(lower(b@)[i] == lower_char(b@[i]));
    }
}

/// A byte is two hexadecimal digits, the higher half first: the digits, and then the letters from `a`.
pub proof fn law_a_byte_is_two_hexadecimal_digits(b: u8, s: String)
    requires
        call_ensures(hex_of, (b,), s),
    ensures
        s@.len() == 2,
        b < 160 ==> s@[0] as u32 == '0' as u32 + b / 16,
        b >= 160 ==> s@[0] as u32 == 'a' as u32 + (b / 16 - 10),
        b % 16 < 10 ==> s@[1] as u32 == '0' as u32 + b % 16,
        b % 16 >= 10 ==> s@[1] as u32 == 'a' as u32 + (b % 16 - 10),
{
}

/// A text is cut at the first place of the character: the two parts with it between them are the text,
/// and it does not stand in the first; where it stands nowhere, there is no cut.
pub proof fn law_a_text_is_cut_at_the_first_place(s: &str, c: char, r: Option<(&str, &str)>)
    requires
        call_ensures(split_once, (s, c), r),
    ensures
        r is Some <==> s@.contains(c),
        r is Some ==> s@ == (r->0).0@.push(c) + (r->0).1@ && !(r->0).0@.contains(c),
{
    lemma_first_at(s@, c);
    let k = first_at(s@, c);
    if k < s@.len() {
        assert(s@[k] == c);
        assert(s@ =~= s@.take(k).push(c) + s@.skip(k + 1));
        if s@.take(k).contains(c) {
            let j = s@.take(k).index_of(c);
            assert(s@[j] == c);
        }
    } else if s@.contains(c) {
        let j = s@.index_of(c);
        assert(s@[j] == c);
    }
}

proof fn lemma_last_at(s: Seq<char>, c: char)
    ensures
        -1 <= last_at(s, c) < s.len(),
        last_at(s, c) >= 0 ==> s[last_at(s, c)] == c,
        forall|i: int| last_at(s, c) < i < s.len() ==> s[i] != c,
    decreases s.len(),
{
    if s.len() > 0 && s.last() != c {
        lemma_last_at(s.drop_last(), c);
        assert forall|i: int| last_at(s, c) < i < s.len() implies s[i] != c by {
            if i < s.len() - 1 {
                assert(s.drop_last()[i] == s[i]);
            }
        }
    }
}

/// From behind, a text is cut at the last place of the character, which does not stand in the second
/// part.
pub proof fn law_a_text_is_cut_at_the_last_place(s: &str, c: char, r: Option<(&str, &str)>)
    requires
        call_ensures(rsplit_once, (s, c), r),
    ensures
        r is Some <==> s@.contains(c),
        r is Some ==> s@ == (r->0).0@.push(c) + (r->0).1@ && !(r->0).1@.contains(c),
{
    lemma_last_at(s@, c);
    let k = last_at(s@, c);
    if k >= 0 {
        assert(s@[k] == c);
        assert(s@ =~= s@.take(k).push(c) + s@.skip(k + 1));
        if s@.skip(k + 1).contains(c) {
            let j = s@.skip(k + 1).index_of(c);
            assert(s@[k + 1 + j] == c);
        }
    } else if s@.contains(c) {
        let j = s@.index_of(c);
        assert(s@[j] == c);
    }
}

proof fn lemma_trim_start(s: Seq<char>)
    ensures
        trim_start(s).len() <= s.len(),
        s.skip(s.len() - trim_start(s).len()) == trim_start(s),
        forall|i: int| 0 <= i < s.len() - trim_start(s).len() ==> is_space(#[trigger] s[i]),
        trim_start(s).len() > 0 ==> !is_space(trim_start(s)[0]),
    decreases s.len(),
{
    if s.len() > 0 && is_space(s[0]) {
        let t = s.skip(1);
        lemma_trim_start(t);
        let k = s.len() - trim_start(s).len();
        assert(s.skip(k) =~= t.skip(k - 1));
        assert forall|i: int| 0 <= i < k implies is_space(#[trigger] s[i]) by {
            if i > 0 {
                assert(t[i - 1] == s[i]);
            }
        }
    } else {
        assert(s.skip(0) =~= s);
    }
}

proof fn lemma_trim_end(s: Seq<char>)
    ensures
        trim_end(s).len() <= s.len(),
        s.take(trim_end(s).len() as int) == trim_end(s),
        forall|i: int| trim_end(s).len() <= i < s.len() ==> is_space(#[trigger] s[i]),
        trim_end(s).len() > 0 ==> !is_space(trim_end(s).last()),
    decreases s.len(),
{
    if s.len() > 0 && is_space(s.last()) {
        let t = s.drop_last();
        lemma_trim_end(t);
        let k = trim_end(s).len() as int;
        assert(s.take(k) =~= t.take(k));
        assert forall|i: int| k <= i < s.len() implies is_space(#[trigger] s[i]) by {
            if i < s.len() - 1 {
                assert(t[i] == s[i]);
            }
        }
    } else {
        assert(s.take(s.len() as int) =~= s);
    }
}

/// Trimming takes white space off the ends and nothing else: what is left is part of the text and has
/// none at either end, and all that is gone was white space.
pub proof fn law_trimming_takes_white_space_off_the_ends(s: &str, r: &str)
    requires
        call_ensures(trim, (s,), r),
    ensures
        r@.len() > 0 ==> !is_space(r@[0]) && !is_space(r@.last()),
        exists|i: int| #[trigger]
            stands_at(s@, r@, i) && (forall|k: int| 0 <= k < i ==> is_space(#[trigger] s@[k])) && (
            forall|k: int| i + r@.len() <= k < s@.len() ==> is_space(#[trigger] s@[k])),
{
    let a = trim_start(s@);
    let b = trim_end(s@);
    lemma_trim_start(s@);
    lemma_trim_end(s@);
    lemma_trim_start(b);
    lemma_trim_end(a);
    if r@ == trim_end(a) {
        let i = s@.len() - a.len();
        assert(s@.subrange(i, i + r@.len()) =~= r@) by {
            assert(s@.skip(i) =~= a);
            assert(a.take(r@.len() as int) =~= r@);
            assert forall|k: int| 0 <= k < r@.len() implies s@[i + k] == r@[k] by {
                assert(a[k] == s@.skip(i)[k]);
                assert(a.take(r@.len() as int)[k] == a[k]);
            }
        }
        assert forall|k: int| i + r@.len() <= k < s@.len() implies is_space(#[trigger] s@[k]) by {
            assert(a[k - i] == s@.skip(i)[k - i]);
        }
        if r@.len() > 0 {
            assert(a.take(r@.len() as int)[0] == a[0]);
        }
        assert(stands_at(s@, r@, i));
    } else {
        assert(r@ == trim_start(b));
        let i = b.len() - r@.len();
        assert(s@.subrange(i, i + r@.len()) =~= r@) by {
            assert(b.skip(i) =~= r@);
            assert forall|k: int| 0 <= k < r@.len() implies s@[i + k] == r@[k] by {
                assert(b.skip(i)[k] == b[i + k]);
                assert(s@.take(b.len() as int)[i + k] == s@[i + k]);
            }
        }
        assert forall|k: int| 0 <= k < i implies is_space(#[trigger] s@[k]) by {
            assert(b[k] == s@.take(b.len() as int)[k]);
        }
        if r@.len() > 0 {
            assert(b.skip(i).last() == b.last());
        }
        assert(stands_at(s@, r@, i));
    }
}

/// A prefix is taken off exactly where it is there, and what is left is the rest.
pub proof fn law_a_prefix_is_taken_off_where_it_is_there(s: &str, p: &str, yes: bool, r: Option<&str>)
    requires
        call_ensures(starts_with, (s, p), yes),
        call_ensures(strip_prefix, (s, p), r),
    ensures
        r is Some <==> yes,
        r is Some ==> s@ == p@ + (r->0)@,
        (exists|rest: Seq<char>| s@ == #[trigger] (p@ + rest)) ==> yes,
{
    if r is Some {
        assert(s@ =~= p@ + (r->0)@);
    }
    if exists|rest: Seq<char>| s@ == #[trigger] (p@ + rest) {
        let rest = choose|rest: Seq<char>| s@ == #[trigger] (p@ + rest);
        assert(s@.take(p@.len() as int) =~= p@);
    }
}

/// A part is contained exactly where the text is something, the part and something.
pub proof fn law_a_part_is_contained_where_it_stands(
    s: &str,
    part: &str,
    r: bool,
    before: Seq<char>,
    after: Seq<char>,
)
    requires
        call_ensures(contains, (s, part), r),
    ensures
        s@ == before + part@ + after ==> r,
        r ==> exists|i: int|
            0 <= i <= s@.len() - part@.len() && #[trigger] s@.subrange(i, i + part@.len()) == part@,
{
    if s@ == before + part@ + after {
        assert(s@.subrange(before.len() as int, (before.len() + part@.len()) as int) =~= part@);
        assert(stands_at(s@, part@, before.len() as int));
    }
    if r {
        let i = choose|i: int| #[trigger] stands_at(s@, part@, i);
        assert(s@.subrange(i, i + part@.len()) == part@);
    }
}

/// An aligned text has the width that was asked for, or its own where that is more; the text stands at
/// its start or at its end, and the rest is blanks.
pub proof fn law_an_aligned_text_has_its_width(s: &str, width: usize, l: String, r: String, i: int)
    requires
        call_ensures(left_aligned, (s, width), l),
        call_ensures(right_aligned, (s, width), r),
    ensures
        s@.len() >= width ==> l@ == s@ && r@ == s@,
        s@.len() < width ==> l@.len() == width && r@.len() == width,
        begins(l@, s@),
        ends(r@, s@),
        s@.len() <= i < l@.len() ==> l@[i] == ' ',
        0 <= i < r@.len() - s@.len() ==> r@[i] == ' ',
{
    assert(l@.take(s@.len() as int) =~= s@);
    assert(r@.skip(r@.len() - s@.len()) =~= s@);
}

/// Joined parts are the parts before, the separator and the last part; one part is itself, and none is
/// nothing.
pub proof fn law_parts_are_joined_in_order(a: &Vec<String>, b: &Vec<String>, p: String, sep: &str, x: String, y: String)
    requires
        call_ensures(join_all, (a, sep), x),
        call_ensures(join_all, (b, sep), y),
        b@ == a@.push(p),
    ensures
        a@.len() == 0 ==> x@.len() == 0 && y@ == p@,
        a@.len() > 0 ==> y@ == x@ + sep@ + p@,
{
    assert(texts(b@).drop_last() =~= texts(a@));
    assert(texts(b@).last() == p@);
    assert(texts(b@).len() == b@.len());
}

proof fn lemma_word(s: Seq<char>)
    ensures
        0 <= word_len(s) <= s.len(),
        forall|i: int| 0 <= i < word_len(s) ==> !is_space(#[trigger] s[i]),
        word_len(s) < s.len() ==> is_space(s[word_len(s)]),
    decreases s.len(),
{
    if s.len() > 0 && !is_space(s[0]) {
        let t = s.skip(1);
        lemma_word(t);
        assert forall|i: int| 0 <= i < word_len(s) implies !is_space(#[trigger] s[i]) by {
            if i > 0 {
                assert(t[i - 1] == s[i]);
            }
        }
    }
}

proof fn lemma_words(s: Seq<char>)
    ensures
        forall|i: int|
            0 <= i < words(s).len() ==> (#[trigger] words(s)[i]).len() > 0 && forall|k: int|
                0 <= k < words(s)[i].len() ==> !is_space(#[trigger] words(s)[i][k]),
    decreases s.len(),
{
    let t = trim_start(s);
    lemma_trim_start(s);
    lemma_word(t);
    if t.len() > 0 {
        let n = word_len(t);
        lemma_words(t.skip(n));
        assert forall|i: int| 0 <= i < words(s).len() implies (#[trigger] words(s)[i]).len() > 0
            && forall|k: int|
            0 <= k < words(s)[i].len() ==> !is_space(#[trigger] words(s)[i][k]) by {
            if i > 0 {
                assert(words(s)[i] == words(t.skip(n))[i - 1]);
            } else {
                assert(words(s)[0] == t.take(n));
                assert forall|k: int| 0 <= k < n implies !is_space(#[trigger] words(s)[0][k]) by {
                    assert(words(s)[0][k] == t[k]);
                }
            }
        }
    }
}

/// A word is not empty and holds no white space; a text of a word alone is that word, and what follows
/// white space behind it are the words of the rest.
pub proof fn law_words_stand_between_white_space(
    s: &str,
    r: Vec<&str>,
    i: int,
    k: int,
    word: Seq<char>,
    c: char,
    rest: Seq<char>,
)
    requires
        call_ensures(words_of, (s,), r),
        0 <= i < r@.len(),
        0 <= k < r@[i]@.len(),
        word.len() > 0,
        forall|j: int| 0 <= j < word.len() ==> !is_space(#[trigger] word[j]),
        is_space(c),
    ensures
        r@[i]@.len() > 0,
        !is_space(r@[i]@[k]),
        s@ == word ==> r@.len() == 1 && r@[0]@ == word,
        s@ == word.push(c) + rest ==> r@[0]@ == word && views(r@).skip(1) == words(rest),
{
    lemma_words(s@);
    assert(views(r@)[i] == r@[i]@);
    assert(views(r@)[0] == r@[0]@);
    assert(views(r@).len() == r@.len());
    let whole = word.push(c) + rest;
    if s@ == word || s@ == whole {
        assert(s@[0] == word[0]);
        assert(trim_start(s@) == s@);
        lemma_word(s@);
        let n = word_len(s@);
        if n < word.len() {
            assert(s@[n] == word[n]);
        }
        if s@ == whole && n > word.len() {
            assert(s@[word.len() as int] == c);
        }
        assert(n == word.len());
        assert(s@.take(n) =~= word);
        let after = s@.skip(n);
        if s@ == word {
            assert(after.len() == 0);
            assert(trim_start(after).len() == 0);
            assert(words(after).len() == 0);
        } else {
            assert(after[0] == c);
            assert(after.skip(1) =~= rest);
            assert(trim_start(after) == trim_start(rest));
            assert(words(after) == words(rest));
            assert(views(r@).skip(1) =~= words(rest));
        }
    }
}

} // verus!
