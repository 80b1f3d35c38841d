use vstd::prelude::*;

verus! {

/// The lowercase hexadecimal digit for a value below sixteen.
pub open spec fn hex_digit(n: int) -> char
    recommends
        0 <= n < 16,
{
    seq!['0', '1', '2', '3', '4', '5', '6', '7', '8', '9', 'a', 'b', 'c', 'd', 'e', 'f'][n]
}

/// The lowercase hexadecimal rendering of a byte string: two digits per
/// byte, high nibble first.
pub open spec fn hex_of(bytes: Seq<u8>) -> Seq<char> {
    Seq::new(
        bytes.len() * 2,
        |i: int|
            if i % 2 == 0 {
                hex_digit(bytes[i / 2] as int / 16)
            } else {
                hex_digit(bytes[i / 2] as int % 16)
            },
    )
}

/// Whether a character is a lowercase hexadecimal digit.
pub open spec fn is_hex_char(c: char) -> bool {
    ('0' <= c && c <= '9') || ('a' <= c && c <= 'f')
}

/// Every digit the encoding produces is a lowercase hexadecimal character.
pub proof fn lemma_hex_of_chars(bytes: Seq<u8>)
    ensures
        hex_of(bytes).len() == bytes.len() * 2,
        forall|i: int| 0 <= i < hex_of(bytes).len() ==> is_hex_char(#[trigger] hex_of(bytes)[i]),
{
    assert forall|i: int| 0 <= i < hex_of(bytes).len() implies is_hex_char(
        #[trigger] hex_of(bytes)[i],
    ) by {
        let b = bytes[i / 2] as int;
        let n = if i % 2 == 0 {
            b / 16
        } else {
            b % 16
        };
        assert(0 <= n < 16);
        assert(hex_of(bytes)[i] == hex_digit(n));
        assert(is_hex_char(hex_digit(n)));
    }
}

/// Relies on hex::encode: one pair of lowercase hexadecimal digits per
/// byte, high nibble first, in byte order.
#[verifier::external_body]
fn hex_encode(bytes: &Vec<u8>) -> (r: String)
    ensures
        r@ == hex_of(bytes@),
{
    hex::encode(bytes)
}

/// Relies on rand::fill: overwrites the slice in place with random bytes.
/// Nothing is promised of the values; only the length is kept.
#[verifier::external_body]
fn fill_random(bytes: &mut Vec<u8>)
    ensures
        final(bytes)@.len() == old(bytes)@.len(),
{
    rand::fill(bytes.as_mut_slice());
}

/// Draw sixteen random bytes and render them as a thirty-two character
/// lowercase hexadecimal file name. The name is chosen before the download
/// starts, so the path it determines is stable even if a later step fails.
pub fn generate_random_filename() -> (r: String)
    ensures
        r@.len() == 32,
        forall|i: int| 0 <= i < r@.len() ==> is_hex_char(#[trigger] r@[i]),
        exists|drawn: Seq<u8>| drawn.len() == 16 && r@ == hex_of(drawn),
{
    let mut bytes: Vec<u8> = Vec::new();
    let mut i: usize = 0;
    while i < 16
        invariant
            bytes@.len() == i,
            i <= 16,
        decreases 16 - i,
    {
        bytes.push(0u8);
        i = i + 1;
    }
    fill_random(&mut bytes);
    let name = hex_encode(&bytes);
    proof {
        lemma_hex_of_chars(bytes@);
        assert(bytes@.len() == 16 && name@ == hex_of(bytes@));
    }
    name
}

/// Hex-encode a byte string, for the listing boundary where raw hash bytes
/// become text.
pub fn hex_string(bytes: &Vec<u8>) -> (r: String)
    ensures
        r@ == hex_of(bytes@),
{
    hex_encode(bytes)
}

/// The record path of an ingested image: the file name placed under the
/// managed images subdirectory, relative to the storage root.
pub fn image_relative_path(filename: &str) -> (r: String)
    ensures
        r@ == "images/"@ + filename@,
{
    let prefix = String::from_str("images/");
    prefix.concat(filename)
}

} // verus!
