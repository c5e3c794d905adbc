use kernel::keyboard::{DecodedKey, Decoder, EXTENDED2_KEY_CODE, EXTENDED_KEY_CODE};

#[test]
fn a_press_of_a_yields_the_letter() {
    let mut decoder = Decoder::new();
    assert_eq!(decoder.feed(0x1E), Some(DecodedKey::Unicode('a')));
}

#[test]
fn a_release_yields_nothing() {
    let mut decoder = Decoder::new();
    assert_eq!(decoder.feed(0x1E), Some(DecodedKey::Unicode('a')));
    assert_eq!(decoder.feed(0x9E), None);
    assert_eq!(decoder.feed(0x1E), Some(DecodedKey::Unicode('a')));
}

#[test]
fn shift_is_a_raw_key_and_makes_capitals() {
    let mut decoder = Decoder::new();
    assert_eq!(decoder.feed(0x2A), Some(DecodedKey::RawKey(String::from("LShift"))));
    assert_eq!(decoder.feed(0x1E), Some(DecodedKey::Unicode('A')));
    assert_eq!(decoder.feed(0x02), Some(DecodedKey::Unicode('!')));
    assert_eq!(decoder.feed(0xAA), None);
    assert_eq!(decoder.feed(0x1E), Some(DecodedKey::Unicode('a')));
    assert_eq!(decoder.feed(0x02), Some(DecodedKey::Unicode('1')));
}

#[test]
fn an_extended_code_takes_two_bytes() {
    let mut decoder = Decoder::new();
    assert_eq!(decoder.feed(EXTENDED_KEY_CODE), None);
    assert_eq!(decoder.feed(0x48), Some(DecodedKey::RawKey(String::from("ArrowUp"))));
    assert_eq!(decoder.feed(0x48), Some(DecodedKey::Unicode('8')));
    assert_eq!(decoder.feed(0xE0), None);
    assert_eq!(decoder.feed(0xC8), None);
}

#[test]
fn the_second_extended_group_takes_two_bytes() {
    let mut decoder = Decoder::new();
    assert_eq!(decoder.feed(EXTENDED2_KEY_CODE), None);
    assert_eq!(decoder.feed(0x1D), Some(DecodedKey::RawKey(String::from("RControl2"))));
    assert_eq!(decoder.feed(0x1D), Some(DecodedKey::RawKey(String::from("LControl"))));
}

#[test]
fn an_extended_byte_after_an_extended_byte_ends_the_scancode() {
    let mut decoder = Decoder::new();
    assert_eq!(decoder.feed(0xE0), None);
    assert_eq!(decoder.feed(0xE0), None);
    assert_eq!(decoder.feed(0x1E), Some(DecodedKey::Unicode('a')));
}

#[test]
fn an_unknown_byte_is_dropped_and_the_next_one_decoded() {
    let mut decoder = Decoder::new();
    assert_eq!(decoder.feed(0x7F), None);
    assert_eq!(decoder.feed(0x1E), Some(DecodedKey::Unicode('a')));
    assert_eq!(decoder.feed(0xE0), None);
    assert_eq!(decoder.feed(0x00), None);
    assert_eq!(decoder.feed(0x1F), Some(DecodedKey::Unicode('s')));
    assert_eq!(decoder.feed(0xE1), None);
    assert_eq!(decoder.feed(0x00), None);
    assert_eq!(decoder.feed(0x20), Some(DecodedKey::Unicode('d')));
}

#[test]
fn every_byte_is_taken_from_every_state() {
    for first in [0x00u8, 0xE0, 0xE1] {
        for byte in 0..=255u8 {
            let mut decoder = Decoder::new();
            if first != 0 {
                assert_eq!(decoder.feed(first), None);
            }
            let key = decoder.feed(byte);
            if first == 0 && (byte == 0xE0 || byte == 0xE1) {
                assert_eq!(key, None);
                assert_eq!(decoder.feed(0x1D).is_some(), true);
            } else {
                assert_eq!(decoder.feed(0xE0), None);
                assert_eq!(decoder.feed(0x48), Some(DecodedKey::RawKey(String::from("ArrowUp"))));
            }
        }
    }
}

#[test]
fn control_keys_pass_letters_through() {
    let mut decoder = Decoder::new();
    assert_eq!(decoder.feed(0x1D), Some(DecodedKey::RawKey(String::from("LControl"))));
    assert_eq!(decoder.feed(0x2E), Some(DecodedKey::Unicode('c')));
}

#[test]
fn a_new_decoder_has_num_lock_on_and_nothing_held() {
    let mut decoder = Decoder::new();
    assert_eq!(decoder.feed(0x47), Some(DecodedKey::Unicode('7')));
    assert_eq!(decoder.feed(0x1E), Some(DecodedKey::Unicode('a')));
    assert_eq!(decoder.feed(0x45), Some(DecodedKey::RawKey(String::from("NumpadLock"))));
    assert_eq!(decoder.feed(0x47), Some(DecodedKey::RawKey(String::from("Home"))));
}
