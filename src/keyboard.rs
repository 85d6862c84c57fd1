//! The scancode decoder: turns the raw bytes that the keyboard controller
//! delivers (scancode set 1, US layout) into decoded keys, one byte at a time.
use vstd::prelude::*;

use pc_keyboard::layouts::Us104Key;
use pc_keyboard::{DecodedKey, HandleControl, Keyboard, ScancodeSet1};

verus! {

/// The `pc_keyboard` decoder for scancode set 1 and the US layout. Verus
/// refuses to declare `pc_keyboard::Keyboard` itself (its parameters are bound
/// by `pc_keyboard` traits), so it is held here out of Verus's sight.
#[verifier::external_body]
pub struct UsKeyboard {
    keyboard: Keyboard<Us104Key, ScancodeSet1>,
}

/// A decoded key, as this kernel uses it.
#[derive(Debug, Clone, Copy, PartialEq, Eq, Structural)]
pub enum KeyOutput {
    /// A key that stands for a character.
    Unicode(char),
    /// A key with no character (a modifier, a function key, ...).
    RawKey,
}

/// What one scancode byte did to the decoder.
#[derive(Debug, Clone, Copy, PartialEq, Eq, Structural)]
pub enum DecodeStep {
    /// The byte completed a key event that decodes to a key.
    Key(KeyOutput),
    /// The byte completed a key event that decodes to no key (a key
    /// release, a modifier change without a key of its own, ...).
    NoKey,
    /// The byte began or continued a multi-byte sequence.
    Incomplete,
    /// The byte was not recognised; the decoder went back to its start state.
    Unrecognised,
}

/// What a `pc_keyboard::Keyboard<Us104Key, ScancodeSet1>` made with
/// `HandleControl::Ignore` does with the last byte of `fed`, when `fed` is
/// every byte handed to it since it was made and each key event it produced
/// went on to `process_keyevent` at once.
pub uninterp spec fn us104_set1_step(fed: Seq<u8>) -> DecodeStep;

/// Relies on `pc_keyboard::Keyboard::new` with `ScancodeSet1::new()`, the
/// `Us104Key` layout and `HandleControl::Ignore`: a decoder in its start state.
#[verifier::external_body]
fn new_us_keyboard() -> (r: UsKeyboard) {
    UsKeyboard { keyboard: Keyboard::new(ScancodeSet1::new(), Us104Key, HandleControl::Ignore) }
}

/// Relies on `pc_keyboard::Keyboard::add_byte`, and on
/// `pc_keyboard::Keyboard::process_keyevent` for the event it completes: both
/// calls stand here together so that every event is processed as soon as it
/// is made. The keyboard's state depends on nothing but the bytes fed since
/// `new_us_keyboard`, which `fed` records.
#[verifier::external_body]
fn keyboard_decode_byte(decoder: &mut ScancodeDecoder, byte: u8) -> (r: DecodeStep)
    ensures
        final(decoder).fed_spec() == old(decoder).fed_spec().push(byte),
        r == us104_set1_step(final(decoder).fed_spec()),
{
    match decoder.keyboard.keyboard.add_byte(byte) {
        Ok(Some(event)) => match decoder.keyboard.keyboard.process_keyevent(event) {
            Some(DecodedKey::Unicode(c)) => DecodeStep::Key(KeyOutput::Unicode(c)),
            Some(DecodedKey::RawKey(_)) => DecodeStep::Key(KeyOutput::RawKey),
            None => DecodeStep::NoKey,
        },
        Ok(None) => DecodeStep::Incomplete,
        Err(_) => DecodeStep::Unrecognised,
    }
}

/// The key a decoding step hands out, if any.
pub open spec fn step_key(step: DecodeStep) -> Option<KeyOutput> {
    match step {
        DecodeStep::Key(k) => Some(k),
        _ => None,
    }
}

/// The key the decoder hands out for the last byte of `fed`.
pub open spec fn decoded_key(fed: Seq<u8>) -> Option<KeyOutput> {
    step_key(us104_set1_step(fed))
}

/// The character that is echoed for a decoded key: only keys that stand for a
/// character are echoed.
pub open spec fn echo_spec(key: Option<KeyOutput>) -> Option<char> {
    match key {
        Some(KeyOutput::Unicode(c)) => Some(c),
        _ => None,
    }
}

/// The character that is echoed for a decoded key.
pub fn echo(key: Option<KeyOutput>) -> (r: Option<char>)
    ensures
        r == echo_spec(key),
{
    match key {
        Some(KeyOutput::Unicode(c)) => Some(c),
        _ => None,
    }
}

/// The keyboard decoder's state, kept for the kernel's lifetime.
pub struct ScancodeDecoder {
    keyboard: UsKeyboard,
    fed: Ghost<Seq<u8>>,
}

impl ScancodeDecoder {
    /// Every byte fed to the decoder since it was made, in order.
    pub closed spec fn fed_spec(&self) -> Seq<u8> {
        self.fed@
    }

    /// A decoder in its start state, with nothing fed.
    pub fn new() -> (r: ScancodeDecoder)
        ensures
            r.fed_spec() == Seq::<u8>::empty(),
    {
        ScancodeDecoder { keyboard: new_us_keyboard(), fed: Ghost(Seq::empty()) }
    }

    /// Feeds one byte. At most one key comes out of it: the decoded key of
    /// every byte fed so far; none while a multi-byte sequence is still
    /// incomplete, and none for a byte that is not recognised (the decoder
    /// then starts over).
    pub fn add_byte(&mut self, byte: u8) -> (r: Option<KeyOutput>)
        ensures
            final(self).fed_spec() == old(self).fed_spec().push(byte),
            r == decoded_key(final(self).fed_spec()),
            us104_set1_step(final(self).fed_spec()) is Unrecognised ==> r is None,
            us104_set1_step(final(self).fed_spec()) is Incomplete ==> r is None,
    {
        match keyboard_decode_byte(self, byte) {
            DecodeStep::Key(k) => Some(k),
            DecodeStep::NoKey => None,
            DecodeStep::Incomplete => None,
            DecodeStep::Unrecognised => None,
        }
    }
}

} // verus!
