use tlenek_traps::vga::{VgaAttr, VgaBgColour, VgaFgColour};

#[test]
fn vga_attr_new() {
    let expected: u8 = 0b1001_1010;
    let bg: VgaBgColour = VgaBgColour::try_from(0b0001).unwrap();
    let fg: VgaFgColour = VgaFgColour::try_from(0b1010).unwrap();
    let blink: bool = true;
    let vga_attr = VgaAttr::new(bg, fg, blink);
    assert_eq!(vga_attr.0, expected);
}

#[test]
fn vga_attr_fg() {
    let expected: u8 = 0b0000_1111;
    let fg: VgaFgColour = VgaFgColour::try_from(0b1111).unwrap();
    let bg: VgaBgColour = VgaBgColour::try_from(0b0000).unwrap();
    let mut vga_attr = VgaAttr::new(bg, fg, false);
    assert_eq!(vga_attr.0, expected);

    let expected: u8 = 0b0000_1010;
    vga_attr.set_fg(VgaFgColour::try_from(0b1010).unwrap());
    assert_eq!(vga_attr.0, expected);
}

#[test]
fn vga_attr_bg() {
    let expected: u8 = 0b0111_0000;
    let fg: VgaFgColour = VgaFgColour::try_from(0b0000).unwrap();
    let bg: VgaBgColour = VgaBgColour::try_from(0b0111).unwrap();
    let mut vga_attr = VgaAttr::new(bg, fg, false);
    assert_eq!(vga_attr.0, expected);

    let expected: u8 = 0b0101_0000;
    vga_attr.set_bg(VgaBgColour::try_from(0b0101).unwrap());
    assert_eq!(vga_attr.0, expected);
}

#[test]
fn vga_attr_blink() {
    let expected: u8 = 0b1000_0000;
    let mut vga_attr = VgaAttr::new(
        VgaBgColour::try_from(0).unwrap(),
        VgaFgColour::try_from(0).unwrap(),
        true,
    );
    assert_eq!(vga_attr.0, expected);

    let expected: u8 = 0b0000_0000;
    vga_attr.set_blink(false);
    assert_eq!(vga_attr.0, expected);
}

#[test]
fn bad_vga_fg() {
    let _ = VgaFgColour::try_from(0x10).unwrap_err();
}

#[test]
fn bad_vga_bg() {
    let _ = VgaBgColour::try_from(0x8).unwrap_err();
}

#[test]
fn getters_read_back_the_fields() {
    let a = VgaAttr::new(VgaBgColour::Brown, VgaFgColour::Pink, false);
    assert_eq!(a.bg(), VgaBgColour::Brown);
    assert_eq!(a.fg(), VgaFgColour::Pink);
    assert!(!a.blink());
    let b = VgaAttr(0xFF);
    assert_eq!(b.bg(), VgaBgColour::LightGray);
    assert_eq!(b.fg(), VgaFgColour::White);
    assert!(b.blink());
}

#[test]
fn setters_keep_the_other_fields() {
    let mut a = VgaAttr::new(VgaBgColour::Red, VgaFgColour::LightCyan, true);
    a.set_bg(VgaBgColour::Green);
    assert_eq!(a, VgaAttr::new(VgaBgColour::Green, VgaFgColour::LightCyan, true));
    a.set_fg(VgaFgColour::Yellow);
    assert_eq!(a, VgaAttr::new(VgaBgColour::Green, VgaFgColour::Yellow, true));
    a.set_blink(false);
    assert_eq!(a.0, 0x2E);
}

#[test]
fn overwrite_mask_offset_replaces_bits() {
    let mut a = VgaAttr(0b1010_1010);
    a.overwrite_mask_offset(0b0000_1100, 2, 0b01);
    assert_eq!(a.0, 0b1010_0110);
}

#[test]
fn defaults() {
    assert_eq!(VgaFgColour::default(), VgaFgColour::White);
    assert_eq!(VgaBgColour::default(), VgaBgColour::Black);
    assert_eq!(VgaAttr::default().0, 0x0F);
}

#[test]
fn colour_numbers() {
    assert_eq!(u8::from(VgaFgColour::LightRed), 0xC);
    assert_eq!(u8::from(VgaBgColour::LightGray), 0x7);
    for v in 0..16u8 {
        assert_eq!(u8::from(VgaFgColour::try_from(v).unwrap()), v);
    }
    for v in 0..8u8 {
        assert_eq!(u8::from(VgaBgColour::try_from(v).unwrap()), v);
    }
    assert_eq!(VgaFgColour::try_from(0xFF), Err("Given value does not match an enum variant."));
}

#[test]
fn set_get_attr() {
    let mut attr = VgaAttr::default();

    attr.set_bg(VgaBgColour::Red);
    assert_eq!(attr.bg(), VgaBgColour::Red);

    attr.set_fg(VgaFgColour::LightCyan);
    assert_eq!(attr.fg(), VgaFgColour::LightCyan);

    attr.set_blink(true);
    assert!(attr.blink());
    assert_eq!(attr.bg(), VgaBgColour::Red);
    assert_eq!(attr.fg(), VgaFgColour::LightCyan);

    attr = VgaAttr::new(VgaBgColour::Brown, VgaFgColour::Pink, false);
    assert_eq!(attr.bg(), VgaBgColour::Brown);
    assert_eq!(attr.fg(), VgaFgColour::Pink);
    assert!(!attr.blink());
}
