//! The salt of the device: 32 random bytes in hexadecimal, kept in a file.
use crate::errors;
use crate::text;
use vstd::prelude::*;
use vstd::utf8::*;

verus! {

/// Whether a character is a hexadecimal digit, in either case.
pub open spec fn is_hex(c: char) -> bool {
    '0' <= c <= '9' || 'a' <= c <= 'f' || 'A' <= c <= 'F'
}

/// The lower-case hexadecimal digit for `d`, which is below sixteen.
pub open spec fn hex_digit(d: u8) -> char {
    if d < 10 {
        (48 + d) as char
    } else {
        (87 + d) as char
    }
}

/// Bytes in hexadecimal, two lower-case digits each.
pub open spec fn hex(bytes: Seq<u8>) -> Seq<char>
    decreases bytes.len(),
{
    if bytes.len() == 0 {
        seq![]
    } else {
        hex(bytes.drop_last()).push(hex_digit(bytes.last() / 16)).push(
            hex_digit(bytes.last() % 16),
        )
    }
}

/// Whether a text can be a salt: 64 hexadecimal digits.
pub open spec fn is_salt(s: Seq<char>) -> bool {
    text::utf8_len(s) == 64 && forall|i: int| 0 <= i < s.len() ==> is_hex(#[trigger] s[i])
}

/// The salt in a salt file, if there is one.
pub open spec fn salt_in(contents: Seq<char>) -> Option<Seq<char>> {
    if is_salt(text::trimmed(contents)) {
        Some(text::trimmed(contents))
    } else {
        None
    }
}

/// The lower-case hexadecimal digit for `d`.
fn digit_of(d: u8) -> (r: char)
    requires
        d < 16,
    ensures
        r == hex_digit(d),
{
    if d < 10 {
        (48 + d) as char
    } else {
        (87 + d) as char
    }
}

/// Bytes in hexadecimal, two lower-case digits each.
pub fn hex_text(bytes: &[u8]) -> (r: String)
    ensures
        r@ == hex(bytes@),
{
    let mut r = String::new();
    for i in 0..bytes.len()
        invariant
            r@ == hex(bytes@.take(i as int)),
    {
        assert(bytes@.take(i + 1).drop_last() == bytes@.take(i as int));
        r.push(digit_of(bytes[i] / 16));
        r.push(digit_of(bytes[i] % 16));
    }
    assert(bytes@.take(bytes@.len() as int) == bytes@);
    r
}

/// The salt in a salt file, if there is one.
pub fn stored_salt(contents: &str) -> (r: Option<String>)
    ensures
        r.deep_view() == salt_in(contents@),
{
    let salt = text::trim(contents);
    if text::byte_len(&salt) != 64 {
        return None;
    }
    let chars = text::chars_of(&salt);
    for i in 0..chars.len()
        invariant
            chars@ == salt@,
            salt@ == text::trimmed(contents@),
            forall|j: int| 0 <= j < i ==> is_hex(#[trigger] salt@[j]),
    {
        let c = chars[i];
        if !(('0' <= c && c <= '9') || ('a' <= c && c <= 'f') || ('A' <= c && c <= 'F')) {
            assert(!is_hex(salt@[i as int]));
            return None;
        }
    }
    Some(salt)
}

/// The salt made of what was drawn from the random number source: the bytes in
/// hexadecimal, or what the source says went wrong.
pub open spec fn drawn_salt(drawn: Result<Seq<u8>, Seq<char>>) -> Result<Seq<char>, Seq<char>> {
    match drawn {
        Ok(bytes) => Ok(hex(bytes)),
        Err(problem) => Err(problem),
    }
}

/// The salt made of what was drawn from the random number source.
pub fn salt_of(drawn: Result<Vec<u8>, String>) -> (r: Result<String, String>)
    ensures
        errors::outcome(r) == drawn_salt(
            match drawn {
                Ok(bytes) => Ok(bytes@),
                Err(problem) => Err(problem@),
            },
        ),
{
    match drawn {
        Ok(bytes) => Ok(hex_text(&bytes)),
        Err(problem) => Err(problem),
    }
}

/// A salt for a device that has none: 32 random bytes in hexadecimal. It is
/// found again once it is stored. It fails where the random number source
/// fails; nothing is claimed of when that is, nor of the text of the error.
pub fn fresh_salt() -> (r: Result<String, String>)
    ensures
        r matches Ok(salt) ==> exists|bytes: Seq<u8>| bytes.len() == 32 && salt@ == #[trigger] hex(
            bytes,
        ),
        r matches Ok(salt) ==> salt_in(salt@) == Some(salt@),
{
    let mut bytes: Vec<u8> = vec![0u8; 32];
    match getrandom::getrandom(bytes.as_mut_slice()) {
        Ok(_) => {
            proof {
                a_stored_salt_is_found_again(bytes@);
            }
            salt_of(Ok(bytes))
        },
        Err(problem) => salt_of(Err(problem.to_string())),
    }
}

/// A salt made of 32 bytes is found again in the file that it was written to.
pub proof fn a_stored_salt_is_found_again(bytes: Seq<u8>)
    requires
        bytes.len() == 32,
    ensures
        salt_in(hex(bytes)) == Some(hex(bytes)),
{
    lemma_hex(bytes);
    is_ascii_chars_encode_utf8(hex(bytes));
    text::lemma_nothing_to_trim(hex(bytes));
}

/// Hexadecimal text has two digits per byte, and nothing else.
proof fn lemma_hex(bytes: Seq<u8>)
    ensures
        hex(bytes).len() == 2 * bytes.len(),
        forall|i: int| 0 <= i < hex(bytes).len() ==> is_hex(#[trigger] hex(bytes)[i]),
        is_ascii_chars(hex(bytes)),
    decreases bytes.len(),
{
    if bytes.len() > 0 {
        lemma_hex(bytes.drop_last());
    }
}

/// Different bytes make different salts.
pub proof fn salts_are_distinct(a: Seq<u8>, b: Seq<u8>)
    requires
        hex(a) == hex(b),
    ensures
        a == b,
    decreases a.len(),
{
    lemma_hex(a);
    lemma_hex(b);
    if a.len() > 0 {
        let x = hex(a);
        let y = hex(b);
        assert(x.drop_last().drop_last() == hex(a.drop_last()));
        assert(y.drop_last().drop_last() == hex(b.drop_last()));
        salts_are_distinct(a.drop_last(), b.drop_last());
        assert(x[x.len() - 1] == hex_digit(a.last() % 16));
        assert(y[y.len() - 1] == hex_digit(b.last() % 16));
        assert(x[x.len() - 2] == hex_digit(a.last() / 16));
        assert(y[y.len() - 2] == hex_digit(b.last() / 16));
        assert(a.last() == b.last());
        assert(a == a.drop_last().push(a.last()));
        assert(b == b.drop_last().push(b.last()));
    }
}

/// A hexadecimal digit is one of the sixteen, in either case.
pub proof fn the_hexadecimal_digits(c: char)
    ensures
        is_hex(c) <==> "0123456789abcdefABCDEF"@.contains(c),
{
    reveal_strlit("0123456789abcdefABCDEF");
    let all = "0123456789abcdefABCDEF"@;
    if is_hex(c) {
        if '0' <= c <= '9' {
            assert(all[c as int - 48] == c);
        } else if 'a' <= c <= 'f' {
            assert(all[c as int - 87] == c);
        } else {
            assert(all[c as int - 49] == c);
        }
    }
}

/// One more byte adds its two digits at the end, the high one first.
pub proof fn one_more_byte_adds_two_digits(bytes: Seq<u8>, b: u8)
    ensures
        hex(Seq::empty()).len() == 0,
        hex(bytes.push(b)) == hex(bytes).push("0123456789abcdef"@[b as int / 16]).push(
            "0123456789abcdef"@[b as int % 16],
        ),
{
    reveal_strlit("0123456789abcdef");
    assert(bytes.push(b).drop_last() == bytes);
}

/// A file holds a salt exactly where it holds 64 hexadecimal digits, with
/// nothing but white space around them; these digits are the salt.
pub proof fn a_salt_is_64_digits(contents: Seq<char>)
    ensures
        ({
            let s = text::trimmed(contents);
            &&& salt_in(contents) is Some <==> s.len() == 64 && forall|i: int|
                0 <= i < s.len() ==> is_hex(#[trigger] s[i])
            &&& salt_in(contents) matches Some(salt) ==> salt == s
        }),
{
    let s = text::trimmed(contents);
    if forall|i: int| 0 <= i < s.len() ==> is_hex(#[trigger] s[i]) {
        assert(is_ascii_chars(s));
        is_ascii_chars_encode_utf8(s);
    }
}

/// Bytes that were drawn make a salt; what went wrong is told as it is.
pub proof fn a_salt_is_made_of_the_bytes_drawn(bytes: Seq<u8>, problem: Seq<char>)
    ensures
        drawn_salt(Ok(bytes)) == Ok::<_, Seq<char>>(hex(bytes)),
        drawn_salt(Err(problem)) == Err::<Seq<char>, _>(problem),
{
}

} // verus!
