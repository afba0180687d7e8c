use vstd::prelude::*;

verus! {

/// What `str::to_lowercase` makes of a text.
pub uninterp spec fn lowercase_text(text: Seq<char>) -> Seq<char>;

/// Whether a character is white space as Unicode has it: a character with
/// the property White_Space.
pub open spec fn white_space(c: char) -> bool {
    let code = c as u32;
    ||| 0x09 <= code <= 0x0d
    ||| code == 0x20
    ||| code == 0x85
    ||| code == 0xa0
    ||| code == 0x1680
    ||| 0x2000 <= code <= 0x200a
    ||| code == 0x2028
    ||| code == 0x2029
    ||| code == 0x202f
    ||| code == 0x205f
    ||| code == 0x3000
}

/// A text without the white space at its start.
pub open spec fn without_leading_space(text: Seq<char>) -> Seq<char>
    decreases text.len(),
{
    if text.len() > 0 && white_space(text[0]) {
        without_leading_space(text.drop_first())
    } else {
        text
    }
}

/// A text without the white space at its end.
pub open spec fn without_trailing_space(text: Seq<char>) -> Seq<char>
    decreases text.len(),
{
    if text.len() > 0 && white_space(text.last()) {
        without_trailing_space(text.drop_last())
    } else {
        text
    }
}

/// What `str::trim` leaves of a text: the text without the white space at
/// its start and at its end.
pub open spec fn trimmed_text(text: Seq<char>) -> Seq<char> {
    without_trailing_space(without_leading_space(text))
}

/// `str::to_lowercase`: the text with every character replaced by its
/// lowercase form, as Unicode defines it.
#[verifier::external_body]
pub(crate) fn lowercase(s: &str) -> (r: String)
    ensures
        r@ == lowercase_text(s@),
{
    s.to_lowercase()
}

/// Whether a character is white space as Unicode has it.
pub fn is_white_space(c: char) -> (r: bool)
    ensures
        r == white_space(c),
{
    let code = c as u32;
    (0x09 <= code && code <= 0x0d) || code == 0x20 || code == 0x85 || code == 0xa0 || code
        == 0x1680 || (0x2000 <= code && code <= 0x200a) || code == 0x2028 || code == 0x2029
        || code == 0x202f || code == 0x205f || code == 0x3000
}

/// The text without the white space at its start and at its end, as
/// `str::trim` gives it.
pub fn trim(s: &str) -> (r: &str)
    ensures
        r@ == trimmed_text(s@),
{
    let n = s.unicode_len();
    let mut start: usize = 0;
    assert(s@.skip(0) =~= s@);
    while start < n && is_white_space(s.get_char(start))
        invariant
            start <= n == s@.len(),
            without_leading_space(s@) == without_leading_space(s@.skip(start as int)),
        decreases n - start,
    {
        assert(s@.skip(start as int).drop_first() =~= s@.skip(start + 1));
        start += 1;
    }
    let ghost rest = s@.skip(start as int);
    assert(without_leading_space(s@) == rest);
    let mut end: usize = n;
    assert(rest =~= s@.subrange(start as int, n as int));
    while end > start && is_white_space(s.get_char(end - 1))
        invariant
            start <= end <= n == s@.len(),
            without_trailing_space(rest) == without_trailing_space(
                s@.subrange(start as int, end as int),
            ),
        decreases end,
    {
        assert(s@.subrange(start as int, end as int).drop_last() =~= s@.subrange(
            start as int,
            end - 1,
        ));
        end -= 1;
    }
    s.substring_char(start, end)
}

/// The characters of a text.
pub fn chars_of(s: &str) -> (chars: Vec<char>)
    ensures
        chars@ == s@,
{
    let n = s.unicode_len();
    let mut chars: Vec<char> = Vec::new();
    let mut i: usize = 0;
    while i < n
        invariant
            i <= n == s@.len(),
            chars@ == s@.take(i as int),
        decreases n - i,
    {
        chars.push(s.get_char(i));
        i += 1;
        assert(chars@ =~= s@.take(i as int));
    }
    assert(s@.take(n as int) =~= s@);
    chars
}

/// Where `sep` first stands in `text`, or the length of `text` where it
/// does not.
pub open spec fn first_index(text: Seq<char>, sep: char) -> int
    decreases text.len(),
{
    if text.len() == 0 || text[0] == sep {
        0
    } else {
        1 + first_index(text.drop_first(), sep)
    }
}

/// The pieces of `text` between the occurrences of `sep`. There is always
/// at least one piece, and a piece may be empty.
pub open spec fn split_on(text: Seq<char>, sep: char) -> Seq<Seq<char>>
    decreases text.len(),
{
    let i = first_index(text, sep);
    if 0 <= i < text.len() {
        seq![text.take(i)] + split_on(text.skip(i + 1), sep)
    } else {
        seq![text]
    }
}

/// `first_index` is the place of the first `sep`.
pub proof fn first_index_is_first(text: Seq<char>, sep: char)
    ensures
        0 <= first_index(text, sep) <= text.len(),
        forall|j: int| 0 <= j < first_index(text, sep) ==> text[j] != sep,
        first_index(text, sep) < text.len() ==> text[first_index(text, sep)] == sep,
    decreases text.len(),
{
    if text.len() != 0 && text[0] != sep {
        let rest = text.drop_first();
        first_index_is_first(rest, sep);
        assert forall|j: int| 0 <= j < first_index(text, sep) implies text[j] != sep by {
            if j > 0 {
                assert(text[j] == rest[j - 1]);
            }
        }
    }
}

/// The place of the first `sep` is `first_index`.
pub proof fn first_is_first_index(text: Seq<char>, sep: char, i: int)
    requires
        0 <= i <= text.len(),
        forall|j: int| 0 <= j < i ==> text[j] != sep,
        i < text.len() ==> text[i] == sep,
    ensures
        first_index(text, sep) == i,
{
    first_index_is_first(text, sep);
    let f = first_index(text, sep);
    if f < i {
        assert(text[f] == sep);
    }
}

/// Cuts a text at every `sep`.
pub fn split<'a>(s: &'a str, sep: char) -> (pieces: Vec<&'a str>)
    ensures
        pieces@.len() == split_on(s@, sep).len(),
        forall|k: int| 0 <= k < pieces@.len() ==> (#[trigger] pieces@[k])@ == split_on(s@, sep)[k],
        pieces@.len() >= 1,
{
    let n = s.unicode_len();
    let mut pieces: Vec<&'a str> = Vec::new();
    let mut start: usize = 0;
    let mut i: usize = 0;
    let ghost mut done: Seq<Seq<char>> = Seq::empty();
    assert(s@.skip(0) =~= s@);
    assert(done + split_on(s@, sep) =~= split_on(s@, sep));
    while i < n
        invariant
            start <= i <= n == s@.len(),
            forall|j: int| start <= j < i ==> s@[j] != sep,
            pieces@.len() == done.len(),
            forall|k: int| 0 <= k < pieces@.len() ==> (#[trigger] pieces@[k])@ == done[k],
            split_on(s@, sep) == done + split_on(s@.skip(start as int), sep),
        decreases n - i,
    {
        if s.get_char(i) == sep {
            let piece = s.substring_char(start, i);
            proof {
                let rest = s@.skip(start as int);
                first_is_first_index(rest, sep, i - start);
                assert(rest.take(i - start) =~= s@.subrange(start as int, i as int));
                assert(rest.skip(i - start + 1) =~= s@.skip(i + 1));
                assert(done + (seq![rest.take(i - start)] + split_on(s@.skip(i + 1), sep)) =~= done.push(
                    piece@,
                ) + split_on(s@.skip(i + 1), sep));
                done = done.push(piece@);
            }
            pieces.push(piece);
            start = i + 1;
        }
        i += 1;
    }
    let piece = s.substring_char(start, n);
    proof {
        let rest = s@.skip(start as int);
        first_is_first_index(rest, sep, n - start);
        assert(rest =~= s@.subrange(start as int, n as int));
        assert(done + seq![rest] =~= done.push(piece@));
    }
    pieces.push(piece);
    pieces
}

/// `text` without `prefix` at its start, as often as it stands there.
pub open spec fn stripped(text: Seq<char>, prefix: Seq<char>) -> Seq<char>
    decreases text.len(),
{
    if prefix.len() > 0 && starts_with(text, prefix) {
        stripped(text.skip(prefix.len() as int), prefix)
    } else {
        text
    }
}

/// Whether `text` begins with `prefix`.
pub open spec fn starts_with(text: Seq<char>, prefix: Seq<char>) -> bool {
    text.len() >= prefix.len() && text.take(prefix.len() as int) == prefix
}

/// Whether the characters from `from` on begin with `prefix`.
pub fn begins(chars: &Vec<char>, from: usize, prefix: &Vec<char>) -> (r: bool)
    requires
        from <= chars@.len(),
    ensures
        r == starts_with(chars@.skip(from as int), prefix@),
{
    let n = prefix.len();
    let len = chars.len();
    if len - from < n {
        return false;
    }
    let mut i: usize = 0;
    while i < n
        invariant
            i <= n == prefix@.len(),
            from + n <= chars@.len() == len,
            forall|j: int| 0 <= j < i ==> chars@[from + j] == prefix@[j],
        decreases n - i,
    {
        if chars[from + i] != prefix[i] {
            assert(chars@.skip(from as int).take(n as int)[i as int] != prefix@[i as int]);
            return false;
        }
        i += 1;
    }
    assert(chars@.skip(from as int).take(n as int) =~= prefix@);
    true
}

/// Where the text starts once `prefix` is taken off its start as often as
/// it stands there.
pub fn strip(chars: &Vec<char>, from: usize, prefix: &Vec<char>) -> (start: usize)
    requires
        from <= chars@.len(),
    ensures
        from <= start <= chars@.len(),
        chars@.skip(start as int) == stripped(chars@.skip(from as int), prefix@),
{
    let mut start = from;
    if prefix.len() == 0 {
        return start;
    }
    while begins(chars, start, prefix)
        invariant
            from <= start <= chars@.len(),
            prefix@.len() > 0,
            stripped(chars@.skip(from as int), prefix@) == stripped(
                chars@.skip(start as int),
                prefix@,
            ),
        decreases chars@.len() - start,
    {
        assert(chars@.skip(start as int).skip(prefix@.len() as int) =~= chars@.skip(
            start + prefix@.len(),
        ));
        let len = chars.len();
        assert(start + prefix@.len() <= len);
        start = start + prefix.len();
    }
    start
}

/// The digit that a character stands for in a radix up to 36.
pub open spec fn digit_of(c: char, radix: u32) -> Option<u32> {
    let d: int = if '0' <= c <= '9' {
        c as u32 - '0' as u32
    } else if 'a' <= c <= 'z' {
        c as u32 - 'a' as u32 + 10
    } else if 'A' <= c <= 'Z' {
        c as u32 - 'A' as u32 + 10
    } else {
        36
    };
    if d < radix {
        Some(d as u32)
    } else {
        None
    }
}

/// Whether every character is a digit of the radix.
pub open spec fn all_digits(digits: Seq<char>, radix: u32) -> bool {
    forall|i: int| 0 <= i < digits.len() ==> digit_of(#[trigger] digits[i], radix) is Some
}

/// The number that digits stand for, most significant first.
pub open spec fn value_of(digits: Seq<char>, radix: u32) -> nat
    decreases digits.len(),
{
    if digits.len() == 0 {
        0
    } else {
        value_of(digits.drop_last(), radix) * radix as nat + digit_of(digits.last(), radix).unwrap_or(
            0,
        ) as nat
    }
}

/// The number that a text stands for, where it is one or more digits of the
/// radix and the number is at most `max`.
pub open spec fn magnitude(digits: Seq<char>, radix: u32, max: nat) -> Option<nat> {
    if digits.len() > 0 && all_digits(digits, radix) && value_of(digits, radix) <= max {
        Some(value_of(digits, radix))
    } else {
        None
    }
}

/// The number that a text stands for as `from_str_radix` of an unsigned
/// type reads it: an optional `+`, then one or more digits, and no more
/// than `max`.
pub open spec fn unsigned_number(text: Seq<char>, radix: u32, max: nat) -> Option<nat> {
    if text.len() > 0 && text[0] == '+' {
        magnitude(text.skip(1), radix, max)
    } else {
        magnitude(text, radix, max)
    }
}

/// The number that a text stands for as `from_str_radix` of `i32` reads it:
/// an optional `+` or `-`, then one or more digits, from -2^31 to 2^31 - 1.
pub open spec fn signed_number(text: Seq<char>, radix: u32) -> Option<int> {
    if text.len() > 0 && text[0] == '-' {
        match magnitude(text.skip(1), radix, 0x8000_0000) {
            Some(v) => Some(-(v as int)),
            None => None,
        }
    } else {
        match unsigned_number(text, radix, 0x7fff_ffff) {
            Some(v) => Some(v as int),
            None => None,
        }
    }
}

/// A longer row of digits stands for no smaller a number.
pub proof fn value_grows(digits: Seq<char>, radix: u32, k: int)
    requires
        0 <= k <= digits.len(),
        radix >= 1,
    ensures
        value_of(digits.take(k), radix) <= value_of(digits, radix),
    decreases digits.len(),
{
    if k < digits.len() {
        let shorter = digits.drop_last();
        value_grows(shorter, radix, k);
        assert(shorter.take(k) =~= digits.take(k));
        assert(value_of(shorter, radix) * radix as nat >= value_of(shorter, radix))
            by (nonlinear_arith)
            requires
                radix >= 1,
        ;
    } else {
        assert(digits.take(k) =~= digits);
    }
}

/// The digit that a character stands for.
pub fn digit(c: char, radix: u32) -> (d: Option<u32>)
    requires
        radix <= 36,
    ensures
        d == digit_of(c, radix),
{
    let code = c as u32;
    let value: u32 = if '0' as u32 <= code && code <= '9' as u32 {
        code - '0' as u32
    } else if 'a' as u32 <= code && code <= 'z' as u32 {
        code - 'a' as u32 + 10
    } else if 'A' as u32 <= code && code <= 'Z' as u32 {
        code - 'A' as u32 + 10
    } else {
        36
    };
    if value < radix {
        Some(value)
    } else {
        None
    }
}

/// Reads the digits from `from` on as a number of at most `max`.
pub fn read_magnitude(chars: &Vec<char>, from: usize, radix: u32, max: u64) -> (r: Option<u64>)
    requires
        from <= chars@.len(),
        2 <= radix <= 36,
    ensures
        match magnitude(chars@.skip(from as int), radix, max as nat) {
            Some(v) => r == Some(v as u64),
            None => r is None,
        },
{
    let ghost digits = chars@.skip(from as int);
    if from >= chars.len() {
        return None;
    }
    let mut acc: u64 = 0;
    let mut i: usize = from;
    while i < chars.len()
        invariant
            from <= i <= chars@.len(),
            digits == chars@.skip(from as int),
            2 <= radix <= 36,
            all_digits(digits.take(i - from), radix),
            acc == value_of(digits.take(i - from), radix),
            acc <= max,
        decreases chars@.len() - i,
    {
        let d = match digit(chars[i], radix) {
            Some(d) => d,
            None => {
                assert(digits[i - from] == chars@[i as int]);
                return None;
            },
        };
        proof {
            let longer = digits.take(i - from + 1);
            assert(longer.drop_last() =~= digits.take(i - from));
            assert(longer.last() == chars@[i as int]);
            value_grows(digits, radix, i - from + 1);
        }
        assert(acc as u128 * radix as u128 <= 0xffff_ffff_ffff_ffff * 36) by (nonlinear_arith)
            requires
                acc <= 0xffff_ffff_ffff_ffff,
                radix <= 36,
        ;
        let wide: u128 = acc as u128 * radix as u128 + d as u128;
        if wide > max as u128 {
            return None;
        }
        acc = wide as u64;
        i += 1;
    }
    assert(digits.take(i - from) =~= digits);
    Some(acc)
}

/// Reads the text from `from` on as an unsigned number of at most `max`.
pub fn read_unsigned(chars: &Vec<char>, from: usize, radix: u32, max: u64) -> (r: Option<u64>)
    requires
        from <= chars@.len(),
        2 <= radix <= 36,
    ensures
        match unsigned_number(chars@.skip(from as int), radix, max as nat) {
            Some(v) => r == Some(v as u64),
            None => r is None,
        },
{
    if from < chars.len() && chars[from] == '+' {
        assert(chars@.skip(from as int).skip(1) =~= chars@.skip(from + 1));
        read_magnitude(chars, from + 1, radix, max)
    } else {
        read_magnitude(chars, from, radix, max)
    }
}

/// Reads the text as a signed word.
pub fn read_signed(chars: &Vec<char>, radix: u32) -> (r: Option<i32>)
    requires
        2 <= radix <= 36,
    ensures
        match signed_number(chars@, radix) {
            Some(v) => r == Some(v as i32),
            None => r is None,
        },
{
    assert(chars@.skip(0) =~= chars@);
    if chars.len() > 0 && chars[0] == '-' {
        match read_magnitude(chars, 1, radix, 0x8000_0000) {
            Some(v) => Some((-(v as i64)) as i32),
            None => None,
        }
    } else {
        match read_unsigned(chars, 0, radix, 0x7fff_ffff) {
            Some(v) => Some(v as i32),
            None => None,
        }
    }
}

/// The code of a character with the letters `A` to `Z` folded onto `a` to
/// `z`.
pub open spec fn folded(c: char) -> u32 {
    if 'A' <= c <= 'Z' {
        (c as u32 + 32) as u32
    } else {
        c as u32
    }
}

/// Whether two texts are the same but for the case of ASCII letters.
pub open spec fn same_ignoring_case(a: Seq<char>, b: Seq<char>) -> bool {
    &&& a.len() == b.len()
    &&& forall|i: int| 0 <= i < a.len() ==> folded(#[trigger] a[i]) == folded(b[i])
}

/// `folded`, computed.
fn fold(c: char) -> (code: u32)
    ensures
        code == folded(c),
{
    let code = c as u32;
    if 'A' as u32 <= code && code <= 'Z' as u32 {
        code + 32
    } else {
        code
    }
}

/// Whether the characters are `name` but for the case of ASCII letters.
pub fn is_name(chars: &Vec<char>, name: &str) -> (r: bool)
    ensures
        r == same_ignoring_case(chars@, name@),
{
    let n = name.unicode_len();
    if chars.len() != n {
        return false;
    }
    let mut i: usize = 0;
    while i < n
        invariant
            i <= n == name@.len() == chars@.len(),
            forall|j: int| 0 <= j < i ==> folded(#[trigger] chars@[j]) == folded(name@[j]),
        decreases n - i,
    {
        if fold(chars[i]) != fold(name.get_char(i)) {
            return false;
        }
        i += 1;
    }
    true
}

/// Whether two texts are the same.
pub fn same_text(a: &str, b: &str) -> (r: bool)
    ensures
        r == (a@ == b@),
{
    String::from_str(a) == String::from_str(b)
}

/// `String::push`: the character is appended to the end of the text.
pub assume_specification[ String::push ](s: &mut String, c: char)
    ensures
        final(s)@ == old(s)@.push(c),
;

/// The character for a digit below 36; letters are capitals where `upper`
/// is set.
pub open spec fn digit_char(d: nat, upper: bool) -> char {
    if d < 10 {
        (48 + d) as u8 as char
    } else if upper {
        (55 + d) as u8 as char
    } else {
        (87 + d) as u8 as char
    }
}

/// A number written in a radix, most significant digit first, without
/// leading zeros.
pub open spec fn digits(value: nat, radix: nat, upper: bool) -> Seq<char>
    decreases value,
{
    if radix < 2 || value < radix {
        seq![digit_char(value, upper)]
    } else {
        proof {
            vstd::arithmetic::div_mod::lemma_div_decreases(value as int, radix as int);
        }
        digits(value / radix, radix, upper).push(digit_char(value % radix, upper))
    }
}

/// `count` times the character `c`.
pub open spec fn repeated(c: char, count: int) -> Seq<char> {
    Seq::new(
        if count > 0 {
            count as nat
        } else {
            0
        },
        |i: int| c,
    )
}

/// A text with `fill` before it as often as it takes to reach `width`.
pub open spec fn right_aligned(text: Seq<char>, fill: char, width: int) -> Seq<char> {
    repeated(fill, width - text.len()) + text
}

/// A word as `0x` and its hexadecimal digits in lowercase.
pub open spec fn hex_text(value: u32) -> Seq<char> {
    "0x"@ + digits(value as nat, 16, false)
}

/// A word as `0x` and its hexadecimal digits in capitals.
pub open spec fn upper_hex_text(value: u32) -> Seq<char> {
    "0x"@ + digits(value as nat, 16, true)
}

/// A word as `0x` and eight hexadecimal digits in lowercase.
pub open spec fn hex8_text(value: u32) -> Seq<char> {
    "0x"@ + right_aligned(digits(value as nat, 16, false), '0', 8)
}

/// A word as `0b` and its binary digits.
pub open spec fn binary_text(value: u32) -> Seq<char> {
    "0b"@ + digits(value as nat, 2, false)
}

/// A number in decimal.
pub open spec fn decimal_text(value: nat) -> Seq<char> {
    digits(value, 10, false)
}

/// A number in decimal, with `-` before it where it is negative.
pub open spec fn signed_text(value: int) -> Seq<char> {
    if value < 0 {
        seq!['-'] + digits((-value) as nat, 10, false)
    } else {
        digits(value as nat, 10, false)
    }
}

/// The character for a digit.
fn digit_to_char(d: u32, upper: bool) -> (c: char)
    requires
        d < 36,
    ensures
        c == digit_char(d as nat, upper),
{
    let code: u8 = if d < 10 {
        (48 + d) as u8
    } else if upper {
        (55 + d) as u8
    } else {
        (87 + d) as u8
    };
    code as char
}

/// Appends a number written in a radix.
pub fn push_digits(out: &mut String, value: u128, radix: u32, upper: bool)
    requires
        2 <= radix <= 36,
    ensures
        final(out)@ == old(out)@ + digits(value as nat, radix as nat, upper),
    decreases value,
{
    let ghost before = out@;
    if value >= radix as u128 {
        proof {
            vstd::arithmetic::div_mod::lemma_div_decreases(value as int, radix as int);
        }
        push_digits(out, value / radix as u128, radix, upper);
    }
    let ghost leading = out@;
    let last = digit_to_char((value % radix as u128) as u32, upper);
    out.push(last);
    proof {
        let v = value as nat;
        let r = radix as nat;
        assert(last == digit_char(v % r, upper));
        if v >= r {
            assert(leading == before + digits(v / r, r, upper));
            assert(digits(v, r, upper) == digits(v / r, r, upper).push(digit_char(v % r, upper)));
            assert(out@ =~= before + digits(v, r, upper));
        } else {
            vstd::arithmetic::div_mod::lemma_small_mod(v, r);
            assert(digits(v, r, upper) == seq![digit_char(v, upper)]);
            assert(out@ =~= before + digits(v, r, upper));
        }
    }
}

/// Appends `count` times the character `c`.
pub fn push_repeated(out: &mut String, c: char, count: usize)
    ensures
        final(out)@ == old(out)@ + repeated(c, count as int),
{
    let mut i: usize = 0;
    assert(old(out)@ + repeated(c, 0) =~= old(out)@);
    while i < count
        invariant
            i <= count,
            out@ == old(out)@ + repeated(c, i as int),
        decreases count - i,
    {
        out.push(c);
        i += 1;
        assert(out@ =~= old(out)@ + repeated(c, i as int));
    }
}

/// Appends a text, right-aligned in `width` characters where it is
/// shorter.
pub fn push_right_aligned(out: &mut String, text: &str, fill: char, width: usize)
    ensures
        final(out)@ == old(out)@ + right_aligned(text@, fill, width as int),
{
    let len = text.unicode_len();
    let missing = if len < width {
        width - len
    } else {
        0
    };
    push_repeated(out, fill, missing);
    out.append(text);
    assert(out@ =~= old(out)@ + right_aligned(text@, fill, width as int));
}

/// A number written in a radix.
pub fn number(value: u128, radix: u32, upper: bool) -> (r: String)
    requires
        2 <= radix <= 36,
    ensures
        r@ == digits(value as nat, radix as nat, upper),
{
    let mut out = String::new();
    push_digits(&mut out, value, radix, upper);
    assert(Seq::<char>::empty() + digits(value as nat, radix as nat, upper) =~= digits(
        value as nat,
        radix as nat,
        upper,
    ));
    out
}

/// A word as `0x` and its hexadecimal digits in lowercase.
pub fn hex(value: u32) -> (r: String)
    ensures
        r@ == hex_text(value),
{
    let mut out = String::from_str("0x");
    push_digits(&mut out, value as u128, 16, false);
    out
}

/// A word as `0x` and its hexadecimal digits in capitals.
pub fn upper_hex(value: u32) -> (r: String)
    ensures
        r@ == upper_hex_text(value),
{
    let mut out = String::from_str("0x");
    push_digits(&mut out, value as u128, 16, true);
    out
}

/// A word as `0x` and eight hexadecimal digits in lowercase.
pub fn hex8(value: u32) -> (r: String)
    ensures
        r@ == hex8_text(value),
{
    let mut out = String::from_str("0x");
    let bare = number(value as u128, 16, false);
    push_right_aligned(&mut out, bare.as_str(), '0', 8);
    out
}

/// A word as `0b` and its binary digits.
pub fn binary(value: u32) -> (r: String)
    ensures
        r@ == binary_text(value),
{
    let mut out = String::from_str("0b");
    push_digits(&mut out, value as u128, 2, false);
    out
}

/// A number in decimal.
pub fn decimal(value: u128) -> (r: String)
    ensures
        r@ == decimal_text(value as nat),
{
    number(value, 10, false)
}

/// A signed word in decimal.
pub fn signed_decimal(value: i32) -> (r: String)
    ensures
        r@ == signed_text(value as int),
{
    if value < 0 {
        let mut out = String::from_str("-");
        proof {
            reveal_strlit("-");
            assert("-"@ =~= seq!['-']);
        }
        push_digits(&mut out, (-(value as i64)) as u128, 10, false);
        out
    } else {
        number(value as u128, 10, false)
    }
}

/// Two texts, one after the other.
pub fn joined(first: &str, second: &str) -> (r: String)
    ensures
        r@ == first@ + second@,
{
    let mut out = String::from_str(first);
    out.append(second);
    out
}

/// A text between two backquotes, after `before`.
pub fn quoted(before: &str, text: &str) -> (r: String)
    ensures
        r@ == before@ + "`"@ + text@ + "`"@,
{
    let mut out = String::from_str(before);
    out.append("`");
    out.append(text);
    out.append("`");
    out
}

} // verus!
