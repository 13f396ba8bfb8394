//! Byte encodings used on the wire: lowercase hex for byte strings and lists
//! of byte strings, and standard base64 for message bodies.

use vstd::prelude::*;
use vstd::utf8::encode_utf8;

verus! {

/// The character of a hex digit `n` (`0 <= n < 16`), lowercase.
pub open spec fn hex_digit(n: int) -> char {
    if n < 10 {
        ('0' as int + n) as char
    } else {
        ('a' as int + n - 10) as char
    }
}

/// The lowercase hex encoding of `bytes`: two digits per byte, the high
/// nibble first.
pub open spec fn hex_encoding(bytes: Seq<u8>) -> Seq<char>
    decreases bytes.len(),
{
    if bytes.len() == 0 {
        Seq::empty()
    } else {
        hex_encoding(bytes.drop_last()) + seq![hex_digit(bytes.last() as int / 16), hex_digit(bytes.last() as int % 16)]
    }
}

/// The shape of a hex encoding: two digits per byte, the high nibble first.
proof fn lemma_hex_encoding_shape(bytes: Seq<u8>)
    ensures
        hex_encoding(bytes).len() == 2 * bytes.len(),
        forall|k: int| 0 <= k < bytes.len() ==> {
            &&& #[trigger] hex_encoding(bytes)[2 * k] == hex_digit(bytes[k] as int / 16)
            &&& hex_encoding(bytes)[2 * k + 1] == hex_digit(bytes[k] as int % 16)
        },
    decreases bytes.len(),
{
    if bytes.len() > 0 {
        let init = bytes.drop_last();
        lemma_hex_encoding_shape(init);
        assert forall|k: int| 0 <= k < bytes.len() implies {
            &&& #[trigger] hex_encoding(bytes)[2 * k] == hex_digit(bytes[k] as int / 16)
            &&& hex_encoding(bytes)[2 * k + 1] == hex_digit(bytes[k] as int % 16)
        } by {
            if k < init.len() {
                assert(init[k] == bytes[k]);
                assert(hex_encoding(init)[2 * k] == hex_digit(init[k] as int / 16));
            }
        }
    }
}

/// A hex digit is an ASCII character whose value is the digit's number.
proof fn lemma_hex_digit(n: int)
    requires
        0 <= n < 16,
    ensures
        '\0' <= hex_digit(n) <= '\u{7f}',
        hex_value(hex_digit(n) as u8) == Some(n),
{
}

/// Why a string is not a hex encoding.
#[derive(Debug, Clone, Copy, PartialEq, Eq)]
pub enum HexError {
    /// A byte that is not a hex digit, at the given byte index.
    InvalidHexCharacter { c: char, index: usize },
    /// The string has an odd number of bytes.
    OddLength,
    /// The decoded length does not fit the destination.
    InvalidStringLength,
}

/// The value of an ASCII hex digit (either case), if `c` is one.
pub open spec fn hex_value(c: u8) -> Option<int> {
    if 0x30 <= c <= 0x39 {
        Some(c - 0x30)
    } else if 0x41 <= c <= 0x46 {
        Some(c - 0x41 + 10)
    } else if 0x61 <= c <= 0x66 {
        Some(c - 0x61 + 10)
    } else {
        None
    }
}

/// Index of the first byte of `s` that is not a hex digit, if any.
pub open spec fn first_non_hex(s: Seq<u8>) -> Option<int>
    decreases s.len(),
{
    if s.len() == 0 {
        None
    } else {
        match first_non_hex(s.drop_last()) {
            Some(i) => Some(i),
            None => if hex_value(s.last()) is None {
                Some(s.len() - 1)
            } else {
                None
            },
        }
    }
}

/// What decoding the bytes `s` of a hex string gives: an odd length is
/// refused first, then the first byte that is not a hex digit; otherwise
/// each pair of digits, high nibble first, is one byte.
pub open spec fn hex_decoding(s: Seq<u8>) -> Result<Seq<u8>, HexError> {
    if s.len() % 2 == 1 {
        Err(HexError::OddLength)
    } else {
        match first_non_hex(s) {
            Some(i) => Err(HexError::InvalidHexCharacter { c: s[i] as char, index: i as usize }),
            None => Ok(
                Seq::new(
                    (s.len() / 2) as nat,
                    |k: int| (hex_value(s[2 * k]).unwrap() * 16 + hex_value(s[2 * k + 1]).unwrap()) as u8,
                ),
            ),
        }
    }
}

/// A byte string in which every byte is a hex digit has no non-digit.
proof fn lemma_all_hex_digits(s: Seq<u8>)
    requires
        forall|i: int| 0 <= i < s.len() ==> #[trigger] hex_value(s[i]) is Some,
    ensures
        first_non_hex(s) is None,
    decreases s.len(),
{
    if s.len() > 0 {
        let init = s.drop_last();
        assert forall|i: int| 0 <= i < init.len() implies #[trigger] hex_value(init[i]) is Some by {
            assert(init[i] == s[i]);
        }
        lemma_all_hex_digits(init);
        assert(hex_value(s[s.len() - 1]) is Some);
    }
}

/// Decoding the hex encoding of a byte string gives the byte string back.
pub proof fn law_hex_round_trip(bytes: Seq<u8>)
    ensures
        hex_decoding(encode_utf8(hex_encoding(bytes))) == Ok::<Seq<u8>, HexError>(bytes),
{
    let e = hex_encoding(bytes);
    lemma_hex_encoding_shape(bytes);
    assert forall|i: int| 0 <= i < e.len() implies #[trigger] e[i] as int == e[i] as u8 && hex_value(e[i] as u8) is Some && '\0' <= e[i] <= '\u{7f}' by {
        let k = i / 2;
        assert(0 <= k < bytes.len());
        assert(e[2 * k] == hex_digit(bytes[k] as int / 16));
        if i % 2 == 0 {
            assert(i == 2 * k);
            lemma_hex_digit(bytes[k] as int / 16);
        } else {
            assert(i == 2 * k + 1);
            lemma_hex_digit(bytes[k] as int % 16);
        }
    }
    assert(vstd::utf8::is_ascii_chars(e));
    vstd::utf8::is_ascii_chars_encode_utf8(e);
    let s = encode_utf8(e);
    assert forall|i: int| 0 <= i < s.len() implies #[trigger] hex_value(s[i]) is Some by {
        assert(s[i] == e[i] as u8);
    }
    lemma_all_hex_digits(s);
    assert(s.len() % 2 == 0);
    let decoded = Seq::new(
        (s.len() / 2) as nat,
        |k: int| (hex_value(s[2 * k]).unwrap() * 16 + hex_value(s[2 * k + 1]).unwrap()) as u8,
    );
    assert forall|k: int| 0 <= k < bytes.len() implies decoded[k] == bytes[k] by {
        lemma_hex_digit(bytes[k] as int / 16);
        lemma_hex_digit(bytes[k] as int % 16);
        assert(s[2 * k] == e[2 * k] as u8);
        assert(s[2 * k + 1] == e[2 * k + 1] as u8);
    }
    assert(decoded =~= bytes);
}

/// Decoding the hex encodings of a list of byte strings gives the list back.
pub proof fn law_hex_list_round_trip(list: Seq<Seq<u8>>)
    ensures
        hex_list_decoding(list.map_values(|b: Seq<u8>| hex_encoding(b))) == Ok::<Seq<Seq<u8>>, HexError>(list),
    decreases list.len(),
{
    let enc = list.map_values(|b: Seq<u8>| hex_encoding(b));
    if list.len() == 0 {
        assert(enc.len() == 0);
        assert(list =~= Seq::<Seq<u8>>::empty());
    } else {
        let init = list.drop_last();
        law_hex_list_round_trip(init);
        assert(enc.drop_last() =~= init.map_values(|b: Seq<u8>| hex_encoding(b)));
        law_hex_round_trip(list.last());
        assert(enc.last() == hex_encoding(list.last()));
        assert(init.push(list.last()) =~= list);
    }
}

/// Whether `c` is a hex digit: `0`..`9`, `a`..`f` or `A`..`F`.
pub open spec fn is_hex_digit_char(c: char) -> bool {
    ('0' <= c && c <= '9') || ('a' <= c && c <= 'f') || ('A' <= c && c <= 'F')
}

/// The number a hex digit stands for; a letter counts the same in either
/// case.
pub open spec fn hex_digit_value(c: char) -> int {
    if '0' <= c && c <= '9' {
        c as int - '0' as int
    } else if 'a' <= c && c <= 'f' {
        c as int - 'a' as int + 10
    } else {
        c as int - 'A' as int + 10
    }
}

/// Whether `s` is a well-formed hex string: an even number of characters,
/// each a hex digit of either case.
pub open spec fn is_hex_text(s: Seq<char>) -> bool {
    &&& s.len() % 2 == 0
    &&& forall|i: int| 0 <= i < s.len() ==> #[trigger] is_hex_digit_char(s[i])
}

/// Whether `v` holds one byte per pair of digits of `s`, the first digit of
/// each pair giving the high nibble.
pub open spec fn decodes_pairs(s: Seq<char>, v: Seq<u8>) -> bool {
    &&& v.len() == s.len() / 2
    &&& forall|k: int| 0 <= k < v.len() ==> #[trigger] v[k] as int == 16 * hex_digit_value(s[2 * k])
        + hex_digit_value(s[2 * k + 1])
}

/// Decoding a well-formed hex string (digits of either case) succeeds with
/// one byte per pair of digits, the first digit of the pair giving the high
/// nibble.
pub proof fn law_hex_decodes_digits(s: Seq<char>)
    requires
        is_hex_text(s),
    ensures
        hex_decoding(encode_utf8(s)) matches Ok(v) && decodes_pairs(s, v),
{
    assert forall|i: int| 0 <= i < s.len() implies '\0' <= #[trigger] s[i] <= '\u{7f}' by {
        assert(is_hex_digit_char(s[i]));
    }
    assert(vstd::utf8::is_ascii_chars(s));
    vstd::utf8::is_ascii_chars_encode_utf8(s);
    let b = encode_utf8(s);
    assert forall|i: int| 0 <= i < b.len() implies #[trigger] hex_value(b[i]) == Some(
        hex_digit_value(s[i]),
    ) by {
        assert(is_hex_digit_char(s[i]));
        assert(b[i] == s[i] as u8);
    }
    assert forall|i: int| 0 <= i < b.len() implies #[trigger] hex_value(b[i]) is Some by {
        assert(hex_value(b[i]) == Some(hex_digit_value(s[i])));
    }
    lemma_all_hex_digits(b);
    if let Ok(v) = hex_decoding(b) {
        assert forall|k: int| 0 <= k < v.len() implies #[trigger] v[k] as int == 16 * hex_digit_value(s[2 * k])
            + hex_digit_value(s[2 * k + 1]) by {
            assert(hex_value(b[2 * k]) == Some(hex_digit_value(s[2 * k])));
            assert(hex_value(b[2 * k + 1]) == Some(hex_digit_value(s[2 * k + 1])));
        }
    }
}

/// Decoding a list of well-formed hex strings (digits of either case)
/// succeeds with one byte string per string, in order, each decoded pair by
/// pair; so the case of the letters does not change the result.
pub proof fn law_hex_list_decodes_digits(ss: Seq<Seq<char>>)
    requires
        forall|i: int| 0 <= i < ss.len() ==> #[trigger] is_hex_text(ss[i]),
    ensures
        hex_list_decoding(ss) matches Ok(vs) && vs.len() == ss.len() && forall|i: int|
            0 <= i < ss.len() ==> #[trigger] decodes_pairs(ss[i], vs[i]),
    decreases ss.len(),
{
    if ss.len() > 0 {
        let init = ss.drop_last();
        assert forall|i: int| 0 <= i < init.len() implies #[trigger] is_hex_text(init[i]) by {
            assert(init[i] == ss[i]);
        }
        law_hex_list_decodes_digits(init);
        assert(is_hex_text(ss[ss.len() - 1]));
        law_hex_decodes_digits(ss.last());
        let prefix = hex_list_decoding(init)->Ok_0;
        let last = hex_decoding(encode_utf8(ss.last()))->Ok_0;
        let vs = prefix.push(last);
        assert(hex_list_decoding(ss) == Ok::<Seq<Seq<u8>>, HexError>(vs));
        assert forall|i: int| 0 <= i < ss.len() implies #[trigger] decodes_pairs(ss[i], vs[i]) by {
            if i < init.len() {
                assert(vs[i] == prefix[i]);
                assert(ss[i] == init[i]);
                assert(decodes_pairs(init[i], prefix[i]));
            } else {
                assert(vs[i] == last);
            }
        }
    }
}

/// Calls `hex::encode`, which writes each byte as two lowercase hex digits,
/// the high nibble first.
#[verifier::external_body]
fn hex_encode(data: &[u8]) -> (r: String)
    ensures
        r@ == hex_encoding(data@),
{
    hex::encode(data)
}

/// Calls `hex::decode` on the bytes of `s` and tells its error variants
/// apart. The contract states what the crate's source does: odd length
/// first, then the first non-digit byte, else the pairs of digits.
#[verifier::external_body]
fn hex_decode(s: &str) -> (r: Result<Vec<u8>, HexError>)
    ensures
        match hex_decoding(encode_utf8(s@)) {
            Ok(v) => r matches Ok(w) && w@ == v,
            Err(e) => r == Err::<Vec<u8>, HexError>(e),
        },
{
    match hex::decode(s) {
        Ok(v) => Ok(v),
        Err(hex::FromHexError::InvalidHexCharacter { c, index }) => Err(HexError::InvalidHexCharacter { c, index }),
        Err(hex::FromHexError::OddLength) => Err(HexError::OddLength),
        Err(hex::FromHexError::InvalidStringLength) => Err(HexError::InvalidStringLength),
    }
}

/// The byte sequences of each vector, in order.
pub open spec fn byte_views(v: Seq<Vec<u8>>) -> Seq<Seq<u8>> {
    v.map_values(|b: Vec<u8>| b@)
}

/// Decoding a list of hex strings: the decoded byte strings, or the error
/// of the first string that does not decode.
pub open spec fn hex_list_decoding(ss: Seq<Seq<char>>) -> Result<Seq<Seq<u8>>, HexError>
    decreases ss.len(),
{
    if ss.len() == 0 {
        Ok(Seq::empty())
    } else {
        match hex_list_decoding(ss.drop_last()) {
            Err(e) => Err(e),
            Ok(prefix) => match hex_decoding(encode_utf8(ss.last())) {
                Ok(v) => Ok(prefix.push(v)),
                Err(e) => Err(e),
            },
        }
    }
}

/// An error in decoding a prefix of the list is the error of the whole list.
proof fn lemma_hex_list_error_prefix(ss: Seq<Seq<char>>, k: int, e: HexError)
    requires
        0 <= k <= ss.len(),
        hex_list_decoding(ss.take(k)) == Err::<Seq<Seq<u8>>, HexError>(e),
    ensures
        hex_list_decoding(ss) == Err::<Seq<Seq<u8>>, HexError>(e),
    decreases ss.len() - k,
{
    if k == ss.len() {
        assert(ss.take(k) =~= ss);
    } else {
        assert(ss.drop_last().take(k) =~= ss.take(k));
        lemma_hex_list_error_prefix(ss.drop_last(), k, e);
    }
}

/// Encodes each byte string as lowercase hex, in order.
pub fn encode_hex_list(data: &Vec<Vec<u8>>) -> (r: Vec<String>)
    ensures
        r@.len() == data@.len(),
        forall|i: int| 0 <= i < r@.len() ==> #[trigger] r@[i]@ == hex_encoding(data@[i]@),
{
    let n = data.len();
    let mut r: Vec<String> = Vec::new();
    let mut i: usize = 0;
    while i < n
        invariant
            n == data@.len(),
            0 <= i <= n,
            r@.len() == i,
            forall|j: int| 0 <= j < i ==> #[trigger] r@[j]@ == hex_encoding(data@[j]@),
        decreases n - i,
    {
        r.push(hex_encode(data[i].as_slice()));
        i += 1;
    }
    r
}

/// Decodes each hex string, in order; fails with the error of the first
/// string that is not a hex encoding.
pub fn decode_hex_list(strings: &Vec<String>) -> (r: Result<Vec<Vec<u8>>, HexError>)
    ensures
        match hex_list_decoding(strings@.map_values(|s: String| s@)) {
            Ok(vs) => r matches Ok(out) && byte_views(out@) == vs,
            Err(e) => r == Err::<Vec<Vec<u8>>, HexError>(e),
        },
{
    let ghost ss = strings@.map_values(|s: String| s@);
    let n = strings.len();
    let mut out: Vec<Vec<u8>> = Vec::new();
    let mut i: usize = 0;
    assert(ss.take(0) =~= Seq::<Seq<char>>::empty());
    assert(byte_views(out@) =~= Seq::<Seq<u8>>::empty());
    while i < n
        invariant
            n == strings@.len(),
            ss == strings@.map_values(|s: String| s@),
            0 <= i <= n,
            out@.len() == i,
            hex_list_decoding(ss.take(i as int)) == Ok::<Seq<Seq<u8>>, HexError>(byte_views(out@)),
        decreases n - i,
    {
        assert(ss.take(i + 1).drop_last() =~= ss.take(i as int));
        assert(ss.take(i + 1).last() == strings@[i as int]@);
        match hex_decode(strings[i].as_str()) {
            Ok(bytes) => {
                let ghost before = out@;
                out.push(bytes);
                assert(byte_views(out@) =~= byte_views(before).push(out@[i as int]@));
            },
            Err(e) => {
                proof {
                    lemma_hex_list_error_prefix(ss, i + 1, e);
                }
                return Err(e);
            },
        }
        i += 1;
    }
    assert(ss.take(n as int) =~= ss);
    Ok(out)
}

/// How the host is asked to encode a message body: as text, or as base64.
#[derive(Debug, Clone, Copy, PartialEq, Eq, Structural)]
pub enum BodyEncoding {
    Text,
    Base64,
}

/// The character of the standard base64 alphabet (RFC 4648) for the 6-bit
/// value `v`: `A`..`Z`, `a`..`z`, `0`..`9`, `+`, `/`.
pub open spec fn base64_symbol(v: int) -> char {
    if v < 26 {
        ('A' as int + v) as char
    } else if v < 52 {
        ('a' as int + v - 26) as char
    } else if v < 62 {
        ('0' as int + v - 52) as char
    } else if v == 62 {
        '+'
    } else {
        '/'
    }
}

/// The standard base64 encoding of `data` with padding: each group of three
/// bytes becomes four symbols, high bits first; a final group of one or two
/// bytes becomes two or three symbols followed by `=` up to four.
pub open spec fn base64_standard_encoding(data: Seq<u8>) -> Seq<char>
    decreases data.len(),
{
    if data.len() == 0 {
        Seq::empty()
    } else if data.len() == 1 {
        let a = data[0] as int;
        seq![base64_symbol(a / 4), base64_symbol((a % 4) * 16), '=', '=']
    } else if data.len() == 2 {
        let a = data[0] as int;
        let b = data[1] as int;
        seq![base64_symbol(a / 4), base64_symbol((a % 4) * 16 + b / 16), base64_symbol((b % 16) * 4), '=']
    } else {
        let a = data[0] as int;
        let b = data[1] as int;
        let c = data[2] as int;
        seq![
            base64_symbol(a / 4),
            base64_symbol((a % 4) * 16 + b / 16),
            base64_symbol((b % 16) * 4 + c / 64),
            base64_symbol(c % 64),
        ] + base64_standard_encoding(data.skip(3))
    }
}

/// Distinct 6-bit values have distinct symbols, and no symbol is the
/// padding character `=`.
proof fn lemma_base64_symbol(u: int, v: int)
    requires
        0 <= u < 64,
        0 <= v < 64,
    ensures
        base64_symbol(u) == base64_symbol(v) ==> u == v,
        base64_symbol(v) != '=',
{
}

/// The first four characters of a non-empty encoding come from its first
/// group of (up to) three bytes: a padding character stands at the third
/// place only after one byte, and at the fourth only after one or two.
proof fn lemma_base64_first_group(data: Seq<u8>)
    requires
        data.len() >= 1,
    ensures
        base64_standard_encoding(data).len() >= 4,
        base64_standard_encoding(data)[0] == base64_symbol(data[0] as int / 4),
        (base64_standard_encoding(data)[2] == '=') == (data.len() == 1),
        (base64_standard_encoding(data)[3] == '=') == (data.len() <= 2),
        data.len() == 1 ==> base64_standard_encoding(data)[1] == base64_symbol((data[0] as int % 4) * 16),
        data.len() >= 2 ==> base64_standard_encoding(data)[1] == base64_symbol(
            (data[0] as int % 4) * 16 + data[1] as int / 16,
        ),
        data.len() == 2 ==> base64_standard_encoding(data)[2] == base64_symbol((data[1] as int % 16) * 4),
        data.len() >= 3 ==> {
            &&& base64_standard_encoding(data)[2] == base64_symbol(
                (data[1] as int % 16) * 4 + data[2] as int / 64,
            )
            &&& base64_standard_encoding(data)[3] == base64_symbol(data[2] as int % 64)
            &&& base64_standard_encoding(data).skip(4) == base64_standard_encoding(data.skip(3))
        },
{
    let a = data[0] as int;
    lemma_base64_symbol(0, a / 4);
    lemma_base64_symbol(0, (a % 4) * 16);
    if data.len() >= 2 {
        let b = data[1] as int;
        lemma_base64_symbol(0, (a % 4) * 16 + b / 16);
        lemma_base64_symbol(0, (b % 16) * 4);
        if data.len() >= 3 {
            let c = data[2] as int;
            lemma_base64_symbol(0, (b % 16) * 4 + c / 64);
            lemma_base64_symbol(0, c % 64);
            let head = seq![
                base64_symbol(a / 4),
                base64_symbol((a % 4) * 16 + b / 16),
                base64_symbol((b % 16) * 4 + c / 64),
                base64_symbol(c % 64),
            ];
            assert((head + base64_standard_encoding(data.skip(3))).skip(4) =~= base64_standard_encoding(
                data.skip(3),
            ));
        }
    }
}

/// Standard base64 encoding is one-to-one: two byte strings with the same
/// encoding are equal, so a text is the encoding of at most one byte string.
pub proof fn law_base64_encoding_injective(v: Seq<u8>, w: Seq<u8>)
    requires
        base64_standard_encoding(v) == base64_standard_encoding(w),
    ensures
        v == w,
    decreases v.len(),
{
    if v.len() == 0 || w.len() == 0 {
        if v.len() > 0 {
            lemma_base64_first_group(v);
        }
        if w.len() > 0 {
            lemma_base64_first_group(w);
        }
        assert(v =~= w);
    } else {
        lemma_base64_first_group(v);
        lemma_base64_first_group(w);
        let ev = base64_standard_encoding(v);
        let ew = base64_standard_encoding(w);
        assert(ev[0] == ew[0] && ev[1] == ew[1] && ev[2] == ew[2] && ev[3] == ew[3]);
        let a = v[0] as int;
        let a2 = w[0] as int;
        lemma_base64_symbol(a / 4, a2 / 4);
        if v.len() == 1 {
            lemma_base64_symbol((a % 4) * 16, (a2 % 4) * 16);
            assert(v =~= w);
        } else {
            let b = v[1] as int;
            let b2 = w[1] as int;
            lemma_base64_symbol((a % 4) * 16 + b / 16, (a2 % 4) * 16 + b2 / 16);
            assert(a == a2 && b / 16 == b2 / 16);
            if v.len() == 2 {
                lemma_base64_symbol((b % 16) * 4, (b2 % 16) * 4);
                assert(v =~= w);
            } else {
                let c = v[2] as int;
                let c2 = w[2] as int;
                lemma_base64_symbol((b % 16) * 4 + c / 64, (b2 % 16) * 4 + c2 / 64);
                lemma_base64_symbol(c % 64, c2 % 64);
                assert(b == b2 && c == c2);
                law_base64_encoding_injective(v.skip(3), w.skip(3));
                assert forall|i: int| 0 <= i < v.len() implies v[i] == w[i] by {
                    if i >= 3 {
                        assert(v[i] == v.skip(3)[i - 3]);
                        assert(w[i] == w.skip(3)[i - 3]);
                    }
                }
                assert(v =~= w);
            }
        }
    }
}

/// Calls `base64::Engine::decode` of `BASE64_STANDARD` on `text`. That
/// engine requires canonical padding and refuses non-zero trailing bits, so
/// it accepts exactly the padded standard encodings: the contract claims that
/// it succeeds with `w` only when `text` is the encoding of `w`, and fails
/// only when `text` is the encoding of no byte string. Which error value
/// comes back on failure is left unstated.
#[verifier::external_body]
fn base64_decode(text: &str) -> (r: Result<Vec<u8>, base64::DecodeError>)
    ensures
        match r {
            Ok(w) => base64_standard_encoding(w@) == text@,
            Err(_) => forall|v: Seq<u8>| #[trigger] base64_standard_encoding(v) != text@,
        },
{
    base64::Engine::decode(&base64::prelude::BASE64_STANDARD, text)
}

/// Calls `base64::Engine::encode` of `BASE64_STANDARD`; the contract states
/// the result: the padded standard encoding, [`base64_standard_encoding`].
#[verifier::external_body]
fn base64_encode(data: &[u8]) -> (r: String)
    ensures
        r@ == base64_standard_encoding(data@),
{
    base64::Engine::encode(&base64::prelude::BASE64_STANDARD, data)
}

/// Encodes bytes as standard base64.
pub fn encode_base64_bytes(data: &[u8]) -> (r: String)
    ensures
        r@ == base64_standard_encoding(data@),
{
    base64_encode(data)
}

/// Decodes standard base64 text into bytes: succeeds exactly when `text` is
/// the padded standard encoding of some bytes, and gives those bytes (there
/// is only one such byte string, by [`law_base64_encoding_injective`]).
pub fn decode_base64_bytes(text: &str) -> (r: Result<Vec<u8>, base64::DecodeError>)
    ensures
        match r {
            Ok(w) => base64_standard_encoding(w@) == text@,
            Err(_) => forall|v: Seq<u8>| #[trigger] base64_standard_encoding(v) != text@,
        },
{
    base64_decode(text)
}

/// Decodes a message body that the host sent as base64 text: no body stays
/// no body; a body that is not base64 is an error.
pub fn decode_body(body: Option<String>) -> (r: Result<Option<Vec<u8>>, base64::DecodeError>)
    ensures
        match body {
            None => r matches Ok(None),
            Some(text) => match r {
                Ok(Some(w)) => base64_standard_encoding(w@) == text@,
                Ok(None) => false,
                Err(_) => forall|v: Seq<u8>| #[trigger] base64_standard_encoding(v) != text@,
            },
        },
{
    match body {
        None => Ok(None),
        Some(text) => match base64_decode(text.as_str()) {
            Ok(bytes) => Ok(Some(bytes)),
            Err(e) => Err(e),
        },
    }
}

} // verus!
