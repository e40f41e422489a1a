use vstd::prelude::*;
use vstd::std_specs::iter::IteratorSpec;
use vstd::string::StringSliceAdditionalSpecFns;
use vstd::utf8::*;

verus! {

/// Why a vendor encoding could not be decoded.
#[derive(Debug, Clone, Copy, PartialEq, Eq, Structural)]
pub enum DecodeError {
    /// A character that is not a hexadecimal digit, or a group of digits of the wrong size.
    InvalidHex,
    /// The decoded bytes are not UTF-8.
    InvalidUtf8,
}

/// The pieces of `s` between occurrences of `sep`: one more piece than there are separators.
pub open spec fn split_on(s: Seq<char>, sep: char) -> Seq<Seq<char>>
    decreases s.len(),
{
    if s.len() == 0 {
        seq![Seq::<char>::empty()]
    } else {
        let rest = split_on(s.drop_last(), sep);
        if s.last() == sep {
            rest.push(Seq::<char>::empty())
        } else {
            rest.update(rest.len() - 1, rest.last().push(s.last()))
        }
    }
}

pub proof fn lemma_split_on_nonempty(s: Seq<char>, sep: char)
    ensures
        split_on(s, sep).len() >= 1,
    decreases s.len(),
{
    if s.len() > 0 {
        lemma_split_on_nonempty(s.drop_last(), sep);
    }
}

pub open spec fn is_hex_digit(c: char) -> bool {
    ('0' <= c && c <= '9') || ('A' <= c && c <= 'F') || ('a' <= c && c <= 'f')
}

/// The value of a hexadecimal digit.
pub open spec fn hex_value(c: char) -> int {
    if '0' <= c && c <= '9' {
        c as int - '0' as int
    } else if 'A' <= c && c <= 'F' {
        c as int - 'A' as int + 10
    } else {
        c as int - 'a' as int + 10
    }
}

/// The byte written by the two hexadecimal digits `hi` and `lo`.
pub open spec fn hex_byte(hi: char, lo: char) -> u8 {
    (16 * hex_value(hi) + hex_value(lo)) as u8
}

/// `s` is exactly two hexadecimal digits.
pub open spec fn is_hex_pair(s: Seq<char>) -> bool {
    s.len() == 2 && is_hex_digit(s[0]) && is_hex_digit(s[1])
}

/// The bytes of a run of hexadecimal digit pairs, or `None` when `s` is not one.
pub open spec fn hex_bytes(s: Seq<char>) -> Option<Seq<u8>> {
    if s.len() % 2 == 0 && forall|i: int| 0 <= i < s.len() ==> is_hex_digit(#[trigger] s[i]) {
        Some(Seq::new((s.len() / 2) as nat, |i: int| hex_byte(s[2 * i], s[2 * i + 1])))
    } else {
        None
    }
}

/// The bytes of a percent encoding: the text before the first `%` is dropped, and every
/// piece after a `%` must be exactly two hexadecimal digits.
pub open spec fn percent_bytes(s: Seq<char>) -> Option<Seq<u8>> {
    let pieces = split_on(s, '%').drop_first();
    if forall|i: int| 0 <= i < pieces.len() ==> is_hex_pair(#[trigger] pieces[i]) {
        Some(pieces.map_values(|p: Seq<char>| hex_byte(p[0], p[1])))
    } else {
        None
    }
}

/// The text that the bytes `b` hold, when they are UTF-8.
pub open spec fn text_of_bytes(b: Option<Seq<u8>>) -> Result<Seq<char>, DecodeError> {
    match b {
        None => Err(DecodeError::InvalidHex),
        Some(bytes) => if valid_utf8(bytes) {
            Ok(decode_utf8(bytes))
        } else {
            Err(DecodeError::InvalidUtf8)
        },
    }
}

pub open spec fn decoded_view(r: Result<String, DecodeError>) -> Result<Seq<char>, DecodeError> {
    match r {
        Ok(s) => Ok(s@),
        Err(e) => Err(e),
    }
}

/// Relies on `String::from_utf8`: it succeeds exactly on UTF-8 input, and the string holds
/// the characters those bytes encode.
#[verifier::external_body]
fn string_from_utf8(b: Vec<u8>) -> (r: Option<String>)
    ensures
        r is Some <==> valid_utf8(b@),
        r matches Some(s) ==> s@ == decode_utf8(b@),
{
    String::from_utf8(b).ok()
}

fn text_from_bytes(b: Vec<u8>) -> (r: Result<String, DecodeError>)
    ensures
        decoded_view(r) == text_of_bytes(Some(b@)),
{
    match string_from_utf8(b) {
        Some(s) => Ok(s),
        None => Err(DecodeError::InvalidUtf8),
    }
}

/// Splits `s` at every `sep`.
pub fn split_chars(s: &Vec<char>, sep: char) -> (r: Vec<Vec<char>>)
    ensures
        r@.len() == split_on(s@, sep).len(),
        forall|i: int| 0 <= i < r@.len() ==> #[trigger] r@[i]@ == split_on(s@, sep)[i],
{
    let mut done: Vec<Vec<char>> = Vec::new();
    let mut cur: Vec<char> = Vec::new();
    let mut i: usize = 0;
    while i < s.len()
        invariant
            i <= s@.len(),
            split_on(s@.take(i as int), sep).len() == done@.len() + 1,
            forall|j: int| 0 <= j < done@.len() ==> #[trigger] done@[j]@ == split_on(s@.take(i as int), sep)[j],
            cur@ == split_on(s@.take(i as int), sep).last(),
        decreases s@.len() - i,
    {
        let c = s[i];
        assert(s@.take(i + 1).drop_last() == s@.take(i as int));
        if c == sep {
            done.push(cur);
            cur = Vec::new();
        } else {
            cur.push(c);
        }
        i += 1;
    }
    done.push(cur);
    assert(s@.take(s@.len() as int) == s@);
    done
}

/// The value of `c` as a hexadecimal digit.
pub fn hex_digit(c: char) -> (r: Option<u8>)
    ensures
        r is Some <==> is_hex_digit(c),
        r matches Some(v) ==> v as int == hex_value(c) && v < 16,
{
    if '0' <= c && c <= '9' {
        Some((c as u32 - '0' as u32) as u8)
    } else if 'A' <= c && c <= 'F' {
        Some((c as u32 - 'A' as u32 + 10) as u8)
    } else if 'a' <= c && c <= 'f' {
        Some((c as u32 - 'a' as u32 + 10) as u8)
    } else {
        None
    }
}

/// The byte that two hexadecimal digits write.
fn pair_byte(hi: char, lo: char) -> (r: Option<u8>)
    ensures
        r is Some <==> is_hex_digit(hi) && is_hex_digit(lo),
        r matches Some(b) ==> b == hex_byte(hi, lo),
{
    match (hex_digit(hi), hex_digit(lo)) {
        (Some(h), Some(l)) => Some(h * 16 + l),
        _ => None,
    }
}

/// Decodes a percent encoding such as `%44%65%76` into the text it writes.
pub fn percent_decode(encoded: &str) -> (r: Result<String, DecodeError>)
    ensures
        decoded_view(r) == text_of_bytes(percent_bytes(encoded@)),
{
    let chars = chars_of(encoded);
    let pieces = split_chars(&chars, '%');
    proof {
        lemma_split_on_nonempty(encoded@, '%');
    }
    let ghost rest = split_on(encoded@, '%').drop_first();
    let mut bytes: Vec<u8> = Vec::new();
    let mut i: usize = 1;
    while i < pieces.len()
        invariant
            1 <= i <= pieces@.len(),
            rest == split_on(encoded@, '%').drop_first(),
            split_on(encoded@, '%').len() == pieces@.len(),
            pieces@.len() == rest.len() + 1,
            forall|j: int| 0 <= j < pieces@.len() ==> #[trigger] pieces@[j]@ == split_on(encoded@, '%')[j],
            bytes@.len() == i - 1,
            forall|j: int| 0 <= j < i - 1 ==> is_hex_pair(#[trigger] rest[j]),
            forall|j: int| 0 <= j < i - 1 ==> #[trigger] bytes@[j] == hex_byte(rest[j][0], rest[j][1]),
        decreases pieces@.len() - i,
    {
        let piece = &pieces[i];
        assert(pieces@[i as int]@ == split_on(encoded@, '%')[i as int]);
        assert(piece@ == rest[i - 1]);
        if piece.len() != 2 {
            assert(!is_hex_pair(rest[i - 1]));
            return Err(DecodeError::InvalidHex);
        }
        match pair_byte(piece[0], piece[1]) {
            Some(b) => bytes.push(b),
            None => {
                assert(!is_hex_pair(rest[i - 1]));
                return Err(DecodeError::InvalidHex);
            },
        }
        i += 1;
    }
    assert(bytes@ =~= rest.map_values(|p: Seq<char>| hex_byte(p[0], p[1])));
    text_from_bytes(bytes)
}

/// Decodes a run of hexadecimal digit pairs such as `4142` into the text it writes.
pub fn decode(encoded: &str) -> (r: Result<String, DecodeError>)
    ensures
        decoded_view(r) == text_of_bytes(hex_bytes(encoded@)),
{
    let chars = chars_of(encoded);
    if chars.len() % 2 != 0 {
        return Err(DecodeError::InvalidHex);
    }
    let ghost s = encoded@;
    let mut bytes: Vec<u8> = Vec::new();
    let mut i: usize = 0;
    while i < chars.len() / 2
        invariant
            chars@ == s,
            s == encoded@,
            s.len() % 2 == 0,
            i <= s.len() / 2,
            bytes@.len() == i,
            forall|j: int| 0 <= j < 2 * i ==> is_hex_digit(#[trigger] s[j]),
            forall|j: int| 0 <= j < i ==> #[trigger] bytes@[j] == hex_byte(s[2 * j], s[2 * j + 1]),
        decreases s.len() / 2 - i,
    {
        match pair_byte(chars[2 * i], chars[2 * i + 1]) {
            Some(b) => bytes.push(b),
            None => {
                assert(!is_hex_digit(s[2 * i as int]) || !is_hex_digit(s[2 * i + 1]));
                assert(hex_bytes(s) is None);
                return Err(DecodeError::InvalidHex);
            },
        }
        i += 1;
    }
    assert(bytes@ =~= Seq::new((s.len() / 2) as nat, |j: int| hex_byte(s[2 * j], s[2 * j + 1])));
    text_from_bytes(bytes)
}

/// The upper-case hexadecimal digit for a value below 16.
pub open spec fn hex_char(v: int) -> char {
    if v < 10 {
        ('0' as int + v) as char
    } else {
        ('A' as int + v - 10) as char
    }
}

/// Two upper-case hexadecimal digits for each byte of `b`.
pub open spec fn hex_text(b: Seq<u8>) -> Seq<char> {
    Seq::new(
        2 * b.len(),
        |i: int|
            if i % 2 == 0 {
                hex_char(b[i / 2] as int / 16)
            } else {
                hex_char(b[i / 2] as int % 16)
            },
    )
}

/// An upper-case hexadecimal digit, as `hex_encode` writes them.
pub open spec fn is_upper_hex_digit(c: char) -> bool {
    ('0' <= c && c <= '9') || ('A' <= c && c <= 'F')
}

/// Upper-case hexadecimal digit pairs that write UTF-8 text decode to that text, and
/// encoding the text again gives back the digits.
pub proof fn hex_round_trip(s: Seq<char>)
    requires
        s.len() % 2 == 0,
        forall|i: int| 0 <= i < s.len() ==> is_upper_hex_digit(#[trigger] s[i]),
        valid_utf8(hex_bytes(s)->0),
    ensures
        text_of_bytes(hex_bytes(s)) is Ok,
        hex_text(encode_utf8(text_of_bytes(hex_bytes(s))->Ok_0)) == s,
{
    assert forall|i: int| 0 <= i < s.len() implies is_hex_digit(#[trigger] s[i]) by {
        assert(is_upper_hex_digit(s[i]));
    }
    let b = hex_bytes(s)->0;
    decode_utf8_encode_utf8(b);
    let t = hex_text(b);
    assert forall|i: int| 0 <= i < s.len() implies #[trigger] t[i] == s[i] by {
        let k = i / 2;
        assert(0 <= k < b.len());
        let hi = s[2 * k];
        let lo = s[2 * k + 1];
        assert(is_upper_hex_digit(hi) && is_upper_hex_digit(lo));
        let vh = hex_value(hi);
        let vl = hex_value(lo);
        assert(0 <= vh < 16 && 0 <= vl < 16);
        assert(b[k] == hex_byte(hi, lo));
        assert(b[k] as int == 16 * vh + vl);
        assert((16 * vh + vl) / 16 == vh) by (nonlinear_arith)
            requires 0 <= vh < 16, 0 <= vl < 16;
        assert((16 * vh + vl) % 16 == vl) by (nonlinear_arith)
            requires 0 <= vh < 16, 0 <= vl < 16;
        assert(hex_char(vh) == hi);
        assert(hex_char(vl) == lo);
        if i % 2 == 0 {
            assert(i == 2 * k);
        } else {
            assert(i == 2 * k + 1);
        }
    }
    assert(t =~= s);
}

fn digit_char(v: u8) -> (r: char)
    requires
        v < 16,
    ensures
        r == hex_char(v as int),
{
    if v < 10 {
        (48 + v) as char
    } else {
        (55 + v) as char
    }
}

/// Writes the UTF-8 bytes of `text` as upper-case hexadecimal digit pairs.
pub fn hex_encode(text: &str) -> (r: String)
    ensures
        r@ == hex_text(text.spec_bytes()),
{
    let b = text.as_bytes();
    let mut r = String::new();
    let mut i: usize = 0;
    while i < b.len()
        invariant
            b@ == text.spec_bytes(),
            i <= b@.len(),
            r@.len() == 2 * i,
            forall|j: int| 0 <= j < 2 * i ==> #[trigger] r@[j] == hex_text(b@)[j],
        decreases b@.len() - i,
    {
        let v = b[i];
        push_char(&mut r, digit_char(v / 16));
        push_char(&mut r, digit_char(v % 16));
        proof {
            assert(forall|j: int| 0 <= j < 2 * i + 2 ==> #[trigger] r@[j] == hex_text(b@)[j]) by {
                assert((2 * i) / 2 == i as int) by (nonlinear_arith);
                assert((2 * i + 1) / 2 == i as int) by (nonlinear_arith);
                assert((2 * i) % 2 == 0) by (nonlinear_arith);
                assert((2 * i + 1) % 2 == 1) by (nonlinear_arith);
            }
        }
        i += 1;
    }
    assert(r@ =~= hex_text(b@));
    r
}

/// Appends the characters of `t` to `s`.
pub fn append_str(s: &mut String, t: &str)
    ensures
        final(s)@ == old(s)@ + t@,
{
    let chars = chars_of(t);
    let mut i: usize = 0;
    while i < chars.len()
        invariant
            i <= chars@.len(),
            chars@ == t@,
            s@ == old(s)@ + t@.take(i as int),
        decreases chars@.len() - i,
    {
        push_char(s, chars[i]);
        i += 1;
        assert(t@.take(i as int) == t@.take(i - 1).push(t@[i - 1]));
    }
    assert(t@.take(t@.len() as int) == t@);
}

/// Relies on `String::push`: appends one character at the end.
#[verifier::external_body]
fn push_char(s: &mut String, c: char)
    ensures
        final(s)@ == old(s)@.push(c),
{
    s.push(c)
}

/// The characters of `s`, in order.
pub fn chars_of(s: &str) -> (r: Vec<char>)
    ensures
        r@ == s@,
{
    let mut r: Vec<char> = Vec::new();
    for c in it: s.chars()
        invariant
            it.seq() == s@,
            r@ == s@.take(it.index() as int),
    {
        r.push(c);
        assert(s@.take(it.index() + 1) == s@.take(it.index() as int).push(c));
    }
    assert(r@ =~= s@);
    r
}

/// The string made of the characters of `v` from `lo` up to `hi`.
pub fn string_of_range(v: &Vec<char>, lo: usize, hi: usize) -> (r: String)
    requires
        lo <= hi <= v@.len(),
    ensures
        r@ == v@.subrange(lo as int, hi as int),
{
    let mut r = String::new();
    let mut i: usize = lo;
    while i < hi
        invariant
            lo <= i <= hi <= v@.len(),
            r@ == v@.subrange(lo as int, i as int),
        decreases hi - i,
    {
        push_char(&mut r, v[i]);
        i += 1;
        assert(v@.subrange(lo as int, i as int) == v@.subrange(lo as int, i - 1).push(v@[i - 1]));
    }
    r
}

} // verus!
