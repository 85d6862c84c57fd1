use tlenek_traps::keyboard::{echo, KeyOutput, ScancodeDecoder};

#[test]
fn a_make_code_decodes_to_a() {
    let mut d = ScancodeDecoder::new();
    assert_eq!(d.add_byte(0x1E), Some(KeyOutput::Unicode('a')));
}

#[test]
fn extended_prefix_waits_for_second_byte() {
    let mut d = ScancodeDecoder::new();
    assert_eq!(d.add_byte(0xE0), None);
    // Right control, a key with no character.
    assert_eq!(d.add_byte(0x1D), Some(KeyOutput::RawKey));
}

#[test]
fn key_release_gives_nothing() {
    let mut d = ScancodeDecoder::new();
    assert_eq!(d.add_byte(0x1E), Some(KeyOutput::Unicode('a')));
    assert_eq!(d.add_byte(0x9E), None);
}

#[test]
fn shift_changes_the_character() {
    let mut d = ScancodeDecoder::new();
    assert_eq!(d.add_byte(0x2A), Some(KeyOutput::RawKey));
    assert_eq!(d.add_byte(0x1E), Some(KeyOutput::Unicode('A')));
}

#[test]
fn unknown_byte_is_dropped_and_decoding_goes_on() {
    let mut d = ScancodeDecoder::new();
    assert_eq!(d.add_byte(0x00), None);
    assert_eq!(d.add_byte(0x1E), Some(KeyOutput::Unicode('a')));
}

#[test]
fn only_character_keys_are_echoed() {
    assert_eq!(echo(Some(KeyOutput::Unicode('x'))), Some('x'));
    assert_eq!(echo(Some(KeyOutput::RawKey)), None);
    assert_eq!(echo(None), None);
}
