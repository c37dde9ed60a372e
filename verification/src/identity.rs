//! The random key and serial number under which a device registers.
use crate::base64::{
    base64, base64_length, base64_shows_all_bits, encode_block, shows_all_bits,
};
use crate::failure::ApiFailure;
use crate::outside::outcome_of;
use ring::rand::{SecureRandom, SystemRandom};
use vstd::prelude::*;

verus! {

/// `ring::error::Unspecified`, an error without details.
#[verifier::external_type_specification]
#[verifier::external_body]
pub struct ExUnspecified(ring::error::Unspecified);

/// `ring::rand::SystemRandom::fill`: `N` random bytes, or a failure. Which bytes
/// come, and whether the call fails, is left open.
#[verifier::external_body]
fn draw<const N: usize>() -> (drawn: Result<[u8; N], ring::error::Unspecified>) {
    let mut bytes = [0; N];
    SystemRandom::new().fill(&mut bytes).map(|()| bytes)
}

/// Whether a call of the random number generator can have come out like this:
/// with these bytes, or with a failure.
pub closed spec fn is_draw<const N: usize>(drawn: Option<[u8; N]>) -> bool {
    match drawn {
        Some(bytes) => call_ensures(draw::<N>, (), Ok(bytes)),
        None => exists|error: ring::error::Unspecified| call_ensures(draw::<N>, (), Err(error)),
    }
}

fn drawn_bytes<const N: usize>() -> (drawn: Option<[u8; N]>)
    ensures
        is_draw(drawn),
{
    let outcome = outcome_of(draw::<N>);
    match outcome {
        Ok(bytes) => {
            assert(outcome == Ok::<[u8; N], ring::error::Unspecified>(bytes));
            Some(bytes)
        },
        Err(error) => {
            assert(outcome == Err::<[u8; N], ring::error::Unspecified>(error));
            None
        },
    }
}

/// The lower-case hexadecimal digit for a value below 16.
pub open spec fn hex_digit(value: int) -> char {
    if value < 10 {
        (('0' as u8) + value) as char
    } else {
        (('a' as u8) + (value - 10)) as char
    }
}

/// Two hexadecimal digits for each byte, the high half first.
pub open spec fn hex(data: Seq<u8>) -> Seq<char> {
    Seq::new(
        data.len() * 2,
        |i: int| hex_digit(if i % 2 == 0 { data[i / 2] as int / 16 } else { data[i / 2] as int % 16 }),
    )
}

/// `hex::encode`: the bytes in lower-case hexadecimal, the high half of each
/// byte first.
#[verifier::external_body]
fn hex_encode(data: &[u8]) -> (text: String)
    ensures
        text@ == hex(data@),
{
    hex::encode(data)
}

/// The text of a 32-byte key, as the API takes it.
pub fn wg_pubkey_text(key: &[u8; 32]) -> (text: String)
    ensures
        text@ == base64(key@),
        text@.len() == 44,
{
    proof {
        base64_length(key@);
    }
    encode_block(key.as_slice())
}

/// The text of an 8-byte serial number, as the API takes it.
pub fn android_serial_text(serial: &[u8; 8]) -> (text: String)
    ensures
        text@ == hex(serial@),
        text@.len() == 16,
{
    hex_encode(serial.as_slice())
}

/// What comes of a draw of a key: its text, or the failure of the draw.
pub open spec fn is_pubkey_of(drawn: Option<[u8; 32]>, text: Result<String, ApiFailure>) -> bool {
    match drawn {
        Some(key) => text matches Ok(text) && text@ == base64(key@) && text@.len() == 44,
        None => text matches Err(failure) && failure == ApiFailure::Rng,
    }
}

/// What comes of a draw of a serial number: its text, or the failure of the draw.
pub open spec fn is_serial_of(drawn: Option<[u8; 8]>, text: Result<String, ApiFailure>) -> bool {
    match drawn {
        Some(serial) => text matches Ok(text) && text@ == hex(serial@) && text@.len() == 16,
        None => text matches Err(failure) && failure == ApiFailure::Rng,
    }
}

/// What comes of a draw of a key.
pub fn wg_pubkey_of(drawn: Option<[u8; 32]>) -> (text: Result<String, ApiFailure>)
    ensures
        is_pubkey_of(drawn, text),
{
    match drawn {
        Some(key) => Ok(wg_pubkey_text(&key)),
        None => Err(ApiFailure::Rng),
    }
}

/// What comes of a draw of a serial number.
pub fn android_serial_of(drawn: Option<[u8; 8]>) -> (text: Result<String, ApiFailure>)
    ensures
        is_serial_of(drawn, text),
{
    match drawn {
        Some(serial) => Ok(android_serial_text(&serial)),
        None => Err(ApiFailure::Rng),
    }
}

/// A random key in the place of a WireGuard public key: what comes of a draw of
/// the random number generator, which can fail.
pub fn random_wg_pubkey() -> (text: Result<String, ApiFailure>)
    ensures
        exists|drawn: Option<[u8; 32]>| #[trigger] is_draw(drawn) && is_pubkey_of(drawn, text),
{
    let drawn = drawn_bytes::<32>();
    wg_pubkey_of(drawn)
}

/// A random serial number: what comes of a draw of the random number generator,
/// which can fail.
pub fn random_android_serial() -> (text: Result<String, ApiFailure>)
    ensures
        exists|drawn: Option<[u8; 8]>| #[trigger] is_draw(drawn) && is_serial_of(drawn, text),
{
    let drawn = drawn_bytes::<8>();
    android_serial_of(drawn)
}

/// Hexadecimal loses nothing: different bytes have different texts.
pub proof fn hex_is_injective(a: Seq<u8>, b: Seq<u8>)
    requires
        hex(a) == hex(b),
    ensures
        a == b,
{
    assert(hex(a).len() == a.len() * 2 && hex(b).len() == b.len() * 2);
    assert forall|i: int| 0 <= i < a.len() implies a[i] == b[i] by {
        let (high, low) = (2 * i, 2 * i + 1);
        assert(high / 2 == i && high % 2 == 0 && low / 2 == i && low % 2 == 1);
        assert(hex(a)[high] == hex_digit(a[i] as int / 16));
        assert(hex(b)[high] == hex_digit(b[i] as int / 16));
        assert(hex(a)[low] == hex_digit(a[i] as int % 16));
        assert(hex(b)[low] == hex_digit(b[i] as int % 16));
    }
    assert(a =~= b);
}

/// The four bits that a lower-case hexadecimal digit stands for, or -1 for any other
/// character.
pub open spec fn four_bits(c: char) -> int {
    if '0' <= c <= '9' {
        c as int - '0' as int
    } else if 'a' <= c <= 'f' {
        c as int - 'a' as int + 10
    } else {
        -1
    }
}

/// Whether the text shows each byte by two hexadecimal digits.
pub open spec fn shows_bytes(text: Seq<char>, data: Seq<u8>) -> bool {
    &&& text.len() == 2 * data.len()
    &&& forall|i: int|
        0 <= i < data.len() ==> {
            &&& 0 <= four_bits(text[2 * i]) < 16
            &&& 0 <= four_bits(text[2 * i + 1]) < 16
            &&& four_bits(text[2 * i]) * 16 + four_bits(text[2 * i + 1]) == #[trigger] data[i]
        }
}

pub(crate) proof fn hex_shows_bytes(data: Seq<u8>)
    ensures
        shows_bytes(hex(data), data),
{
    let text = hex(data);
    assert forall|i: int| 0 <= i < data.len() implies {
        &&& 0 <= four_bits(text[2 * i]) < 16
        &&& 0 <= four_bits(text[2 * i + 1]) < 16
        &&& four_bits(text[2 * i]) * 16 + four_bits(text[2 * i + 1]) == #[trigger] data[i]
    } by {
        let (high, low) = (2 * i, 2 * i + 1);
        assert(high / 2 == i && high % 2 == 0 && low / 2 == i && low % 2 == 1);
        assert(text[high] == hex_digit(data[i] as int / 16));
        assert(text[low] == hex_digit(data[i] as int % 16));
    }
}

/// The text of a key gives back all its bytes, and that of a serial number too.
pub proof fn identity_texts_show_their_bytes(
    key: &[u8; 32],
    serial: &[u8; 8],
    key_text: String,
    serial_text: String,
)
    requires
        call_ensures(wg_pubkey_text, (key,), key_text),
        call_ensures(android_serial_text, (serial,), serial_text),
    ensures
        shows_all_bits(key_text@, key@),
        key_text@.len() == 44,
        shows_bytes(serial_text@, serial@),
        serial_text@.len() == 16,
{
    base64_shows_all_bits(key@);
    hex_shows_bytes(serial@);
}

/// What comes of a draw shows the bytes that were drawn, and all of them; it fails
/// exactly where the draw failed, and then as a failure of the generator.
pub proof fn draws_become_their_texts(
    key: Option<[u8; 32]>,
    serial: Option<[u8; 8]>,
    key_text: Result<String, ApiFailure>,
    serial_text: Result<String, ApiFailure>,
)
    requires
        call_ensures(wg_pubkey_of, (key,), key_text),
        call_ensures(android_serial_of, (serial,), serial_text),
    ensures
        key_text is Ok <==> key is Some,
        serial_text is Ok <==> serial is Some,
        key_text is Ok ==> shows_all_bits(key_text->Ok_0@, key->0@),
        serial_text is Ok ==> shows_bytes(serial_text->Ok_0@, serial->0@),
        key_text is Err ==> key_text->Err_0 is Rng,
        serial_text is Err ==> serial_text->Err_0 is Rng,
{
    if let Some(key) = key {
        base64_shows_all_bits(key@);
    }
    if let Some(serial) = serial {
        hex_shows_bytes(serial@);
    }
}

/// A random text shows bytes that the generator can have drawn just so; where there
/// is none, the generator can have failed.
pub proof fn random_texts_show_draws(
    key_text: Result<String, ApiFailure>,
    serial_text: Result<String, ApiFailure>,
)
    requires
        call_ensures(random_wg_pubkey, (), key_text),
        call_ensures(random_android_serial, (), serial_text),
    ensures
        match key_text {
            Ok(text) => exists|key: [u8; 32]|
                #[trigger] is_draw(Some(key)) && shows_all_bits(text@, key@),
            Err(failure) => failure is Rng && is_draw(None::<[u8; 32]>),
        },
        match serial_text {
            Ok(text) => exists|serial: [u8; 8]|
                #[trigger] is_draw(Some(serial)) && shows_bytes(text@, serial@),
            Err(failure) => failure is Rng && is_draw(None::<[u8; 8]>),
        },
{
    let key = choose|drawn: Option<[u8; 32]>| #[trigger]
        is_draw(drawn) && is_pubkey_of(drawn, key_text);
    if let Some(bytes) = key {
        base64_shows_all_bits(bytes@);
        assert(is_draw(Some(bytes)));
    }
    let serial = choose|drawn: Option<[u8; 8]>| #[trigger]
        is_draw(drawn) && is_serial_of(drawn, serial_text);
    if let Some(bytes) = serial {
        hex_shows_bytes(bytes@);
        assert(is_draw(Some(bytes)));
    }
}

/// Bytes count as drawn only where the generator gave them, all of them, and a draw
/// counts as failed only where the generator failed.
proof fn draws_come_of_the_generator<const N: usize>(drawn: Option<[u8; N]>)
    requires
        is_draw(drawn),
    ensures
        match drawn {
            Some(bytes) => call_ensures(draw::<N>, (), Ok(bytes)),
            None => exists|error: ring::error::Unspecified|
                call_ensures(draw::<N>, (), Err(error)),
        },
{
}

} // verus!
