use tlenek_traps::vga::{VgaAttr, VgaBgColour, VgaFgColour};
use tlenek_traps::writer::{Writer, VgaChar, TAB_WIDTH, VGA_BUFFER_HEIGHT, VGA_BUFFER_WIDTH};

fn writer() -> Writer {
    Writer::new(VgaBgColour::default(), VgaFgColour::default(), false)
}

fn row_text(w: &Writer, row: usize) -> String {
    (0..VGA_BUFFER_WIDTH).map(|c| char::from(w.cell(row, c).text_byte)).collect()
}

#[test]
fn println_appears_on_screen() {
    let s = "Hello, world!";
    let mut w = writer();
    w.write_string("\n");
    w.write_string(s);
    w.write_string("\n");
    for (i, c) in s.chars().enumerate() {
        assert_eq!(char::from(w.cell(VGA_BUFFER_HEIGHT - 2, i).text_byte), c);
    }
    assert_eq!(w.column_position(), 0);
}

#[test]
fn many_println() {
    let mut w = writer();
    for _ in 0..200 {
        w.write_string("ping!\n");
    }
    assert!(row_text(&w, VGA_BUFFER_HEIGHT - 2).starts_with("ping!"));
    assert!(row_text(&w, 0).starts_with("ping!"));
}

#[test]
fn print_wrap() {
    let mut w = writer();
    for _ in 0..VGA_BUFFER_WIDTH {
        w.write_string("O");
    }
    w.write_string("I");
    for i in 0..VGA_BUFFER_WIDTH {
        assert_eq!(char::from(w.cell(VGA_BUFFER_HEIGHT - 2, i).text_byte), 'O');
    }
    assert_eq!(char::from(w.cell(VGA_BUFFER_HEIGHT - 1, 0).text_byte), 'I');
}

#[test]
fn print_tab() {
    let mut w = writer();
    assert_eq!(w.column_position(), 0);
    w.write_string("\t");
    assert_eq!(w.column_position(), TAB_WIDTH);
    w.write_string("ab\t");
    assert_eq!(w.column_position(), 2 * TAB_WIDTH);
}

#[test]
fn tab_at_full_row_wraps() {
    let mut w = writer();
    for _ in 0..VGA_BUFFER_WIDTH {
        w.write_char(b'x');
    }
    w.write_tab();
    assert_eq!(w.column_position(), TAB_WIDTH);
    assert_eq!(w.cell(VGA_BUFFER_HEIGHT - 2, 79).text_byte, b'x');
}

#[test]
fn backspace_erases() {
    let mut w = writer();
    w.write_string("ab\x08");
    assert_eq!(w.column_position(), 1);
    assert_eq!(w.cell(VGA_BUFFER_HEIGHT - 1, 1).text_byte, b' ');
    assert_eq!(w.cell(VGA_BUFFER_HEIGHT - 1, 0).text_byte, b'a');
}

#[test]
fn backspace_at_line_start_goes_back_a_line() {
    let mut w = writer();
    w.write_string("abc\n\x08");
    assert_eq!(w.column_position(), VGA_BUFFER_WIDTH - 1);
    assert_eq!(w.cell(VGA_BUFFER_HEIGHT - 1, 0).text_byte, b'a');
    assert_eq!(w.cell(VGA_BUFFER_HEIGHT - 1, 79).text_byte, b' ');
}

#[test]
fn unprintable_bytes_show_a_mark() {
    let mut w = writer();
    w.write_string("é");
    assert_eq!(w.column_position(), 2);
    assert_eq!(w.cell(VGA_BUFFER_HEIGHT - 1, 0).text_byte, 0xFE);
    assert_eq!(w.cell(VGA_BUFFER_HEIGHT - 1, 1).text_byte, 0xFE);
}

#[test]
fn characters_carry_the_attribute() {
    let mut w = writer();
    let attr = VgaAttr::new(VgaBgColour::Blue, VgaFgColour::Yellow, false);
    w.set_attr(attr);
    w.write_char(b'Z');
    assert_eq!(w.cell(VGA_BUFFER_HEIGHT - 1, 0), VgaChar { text_byte: b'Z', attr });
    assert_eq!(w.attr(), attr);
}

#[test]
fn clear_row_blanks_one_row() {
    let mut w = writer();
    w.write_string("abc");
    w.clear_row(VGA_BUFFER_HEIGHT - 1);
    assert_eq!(row_text(&w, VGA_BUFFER_HEIGHT - 1), " ".repeat(VGA_BUFFER_WIDTH));
    assert_eq!(w.column_position(), 3);
}
