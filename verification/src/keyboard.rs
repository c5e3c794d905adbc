use vstd::prelude::*;
use pc_keyboard::layouts::Us104Key;
use pc_keyboard::{HandleControl, KeyEvent, Keyboard, ScancodeSet1};

verus! {

/// The scancode that announces an extended, two-byte code.
pub const EXTENDED_KEY_CODE: u8 = 0xE0;

/// The scancode that announces a code of the second extended group.
pub const EXTENDED2_KEY_CODE: u8 = 0xE1;

/// A key as the decoder reports it.
#[derive(Debug, Clone, PartialEq, Eq)]
pub enum DecodedKey {
    /// A key without a character of its own, by the name of its key code.
    RawKey(String),
    /// The character that the key types.
    Unicode(char),
}

/// A key transition as `pc_keyboard` reports it; it is only handed on.
#[verifier::external_type_specification]
#[verifier::external_body]
pub struct ExKeyEvent(KeyEvent);

/// The reason for which `pc_keyboard` rejects a byte; it is only told apart from success.
#[verifier::external_type_specification]
#[verifier::external_body]
pub struct ExKeyboardError(pc_keyboard::Error);

/// A decoder for scancode set 1 on a US keyboard with 104 keys. It holds a
/// `pc_keyboard::Keyboard`, which keeps the unfinished scancode and the state
/// of the modifier keys to itself.
#[verifier::external_body]
pub struct Decoder {
    keyboard: Keyboard<Us104Key, ScancodeSet1>,
}

/// The bytes of an unfinished scancode that a decoder holds: none, or the one
/// byte that announced an extended code.
pub uninterp spec fn decoder_prefix(decoder: Decoder) -> Seq<u8>;

/// What `pc_keyboard` makes of a byte that follows the unfinished scancode
/// `prefix`: a key transition, nothing yet, or a rejection.
pub uninterp spec fn key_event(prefix: Seq<u8>, byte: u8) -> Result<Option<KeyEvent>, pc_keyboard::Error>;

/// The modifier keys that a decoder holds as pressed or locked, in the order
/// in which `pc_keyboard::Modifiers` lists them.
pub uninterp spec fn decoder_modifiers(decoder: Decoder) -> Seq<bool>;

/// What a key transition holds: the number of its key code and of its state.
pub uninterp spec fn key_event_parts(event: KeyEvent) -> Seq<u8>;

/// The key that `pc_keyboard` decodes from a key transition, given by its
/// parts, under the given modifier keys, on the US layout with control keys
/// passed through.
pub uninterp spec fn decoded_key(modifiers: Seq<bool>, parts: Seq<u8>) -> Option<DecodedKey>;

/// The modifier keys that `pc_keyboard` holds after a key transition, given
/// by its parts.
pub uninterp spec fn modifiers_after(modifiers: Seq<bool>, parts: Seq<u8>) -> Seq<bool>;

/// Whether `byte` opens a scancode of more than one byte.
pub open spec fn starts_sequence(prefix: Seq<u8>, byte: u8) -> bool {
    prefix.len() == 0 && (byte == EXTENDED_KEY_CODE || byte == EXTENDED2_KEY_CODE)
}

/// The unfinished scancode that a decoder holds after it has taken `byte`.
pub open spec fn next_prefix(prefix: Seq<u8>, byte: u8) -> Seq<u8> {
    if starts_sequence(prefix, byte) {
        seq![byte]
    } else {
        Seq::empty()
    }
}

/// The modifier keys of a new keyboard: Num Lock is on, the fifth of the
/// nine, and nothing else is pressed or locked.
pub open spec fn new_modifiers() -> Seq<bool> {
    seq![false, false, false, false, true, false, false, false, false]
}

/// Makes the decoder with `pc_keyboard`'s `Keyboard::new`, for scancode set 1,
/// the `Us104Key` layout and control keys passed through. Trusted: a new
/// keyboard is at the start of a scancode, with Num Lock on and no other
/// modifier key pressed or locked.
#[verifier::external_body]
fn new_keyboard() -> (decoder: Decoder)
    ensures
        decoder_prefix(decoder) == Seq::<u8>::empty(),
        decoder_modifiers(decoder) == new_modifiers(),
{
    Decoder { keyboard: Keyboard::new(ScancodeSet1::new(), Us104Key, HandleControl::Ignore) }
}

/// Hands one byte to `pc_keyboard`'s `Keyboard::add_byte`. Trusted: what comes
/// back depends on the unfinished scancode and the byte alone; it is "nothing
/// yet" exactly where the byte is 0xE0 or 0xE1 at the start of a scancode, and
/// the keyboard then holds that byte; after any other byte it is back at the
/// start of a scancode. The modifier keys are not touched.
#[verifier::external_body]
fn add_byte(decoder: &mut Decoder, byte: u8) -> (step: Result<Option<KeyEvent>, pc_keyboard::Error>)
    ensures
        step == key_event(decoder_prefix(*old(decoder)), byte),
        (step matches Ok(None)) <==> starts_sequence(decoder_prefix(*old(decoder)), byte),
        decoder_prefix(*final(decoder)) == next_prefix(decoder_prefix(*old(decoder)), byte),
        decoder_modifiers(*final(decoder)) == decoder_modifiers(*old(decoder)),
{
    decoder.keyboard.add_byte(byte)
}

/// Hands a key transition to `pc_keyboard`'s `Keyboard::process_keyevent` and
/// reports the key that it decodes, a raw key by the `Debug` name of its key
/// code. Trusted: the key and the modifier keys held afterwards depend on the
/// modifier keys held before and on the key code and state of the transition
/// alone, and the unfinished scancode is not touched.
#[verifier::external_body]
fn process_keyevent(decoder: &mut Decoder, event: KeyEvent) -> (key: Option<DecodedKey>)
    ensures
        key == decoded_key(decoder_modifiers(*old(decoder)), key_event_parts(event)),
        decoder_modifiers(*final(decoder)) == modifiers_after(
            decoder_modifiers(*old(decoder)),
            key_event_parts(event),
        ),
        decoder_prefix(*final(decoder)) == decoder_prefix(*old(decoder)),
{
    match decoder.keyboard.process_keyevent(event) {
        Some(pc_keyboard::DecodedKey::Unicode(character)) => Some(DecodedKey::Unicode(character)),
        Some(pc_keyboard::DecodedKey::RawKey(code)) => Some(DecodedKey::RawKey(format!("{:?}", code))),
        None => None,
    }
}

impl Decoder {
    /// The unfinished scancode that the decoder holds.
    pub open spec fn prefix(self) -> Seq<u8> {
        decoder_prefix(self)
    }

    /// The modifier keys that the decoder holds as pressed or locked.
    pub open spec fn modifiers(self) -> Seq<bool> {
        decoder_modifiers(self)
    }

    /// The key that a byte yields: the one decoded from the key transition
    /// that the byte completes, and none where it completes none.
    pub open spec fn key_for(self, byte: u8) -> Option<DecodedKey> {
        match key_event(self.prefix(), byte) {
            Ok(Some(event)) => decoded_key(self.modifiers(), key_event_parts(event)),
            _ => None,
        }
    }

    /// The modifier keys held after a byte: changed by the key transition
    /// that the byte completes, and as before where it completes none.
    pub open spec fn modifiers_for(self, byte: u8) -> Seq<bool> {
        match key_event(self.prefix(), byte) {
            Ok(Some(event)) => modifiers_after(self.modifiers(), key_event_parts(event)),
            _ => self.modifiers(),
        }
    }

    /// A decoder at the start of a scancode, with Num Lock on and no other
    /// modifier key pressed or locked.
    pub fn new() -> (decoder: Self)
        ensures
            decoder.prefix() == Seq::<u8>::empty(),
            decoder.modifiers() == new_modifiers(),
    {
        new_keyboard()
    }

    /// Takes one scancode byte. A byte that opens a longer scancode is kept
    /// and yields nothing; any other byte ends the scancode. It yields a key
    /// only where it completes a key transition: a byte that the keyboard
    /// rejects is dropped, and the decoder starts afresh with the next one.
    pub fn feed(&mut self, byte: u8) -> (key: Option<DecodedKey>)
        ensures
            key == old(self).key_for(byte),
            final(self).prefix() == next_prefix(old(self).prefix(), byte),
            final(self).modifiers() == old(self).modifiers_for(byte),
            starts_sequence(old(self).prefix(), byte) ==> key is None,
    {
        match add_byte(self, byte) {
            Ok(Some(event)) => process_keyevent(self, event),
            Ok(None) => None,
            Err(_) => None,
        }
    }
}

} // verus!
