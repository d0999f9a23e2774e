use vga_text::color::Color;
use vga_text::color::ColorCode;
use vga_text::vga_buffer::Buffer;
use vga_text::vga_buffer::ScreenChar;
use vga_text::vga_buffer::Writer;
use vga_text::vga_buffer::BUFFER_HEIGHT;
use vga_text::vga_buffer::BUFFER_WIDTH;

fn fresh_writer() -> Writer {
    let color = ColorCode::new(Color::LightGreen, Color::Black);
    let blank = ScreenChar { ascii_character: b' ', color_code: color };
    Writer::new(Buffer::new(blank), color)
}

#[test]
fn fresh_buffer_holds_its_fill() {
    let writer = fresh_writer();
    let color = ColorCode::new(Color::LightGreen, Color::Black);
    let blank = ScreenChar { ascii_character: b' ', color_code: color };
    assert_eq!(writer.read_cell(0, 0), blank);
    assert_eq!(writer.read_cell(BUFFER_HEIGHT - 1, BUFFER_WIDTH - 1), blank);
}

#[test]
fn write_then_read_back() {
    let mut writer = fresh_writer();
    let color = ColorCode::new(Color::LightGreen, Color::Black);
    writer.write_byte(b'A');
    assert_eq!(
        writer.read_cell(0, 0),
        ScreenChar { ascii_character: b'A', color_code: color }
    );
    writer.write_byte(b'\n');
    writer.write_byte(b'z');
    writer.write_byte(b'!');
    assert_eq!(writer.read_cell(1, 0).ascii_character, b'z');
    assert_eq!(writer.read_cell(1, 1).ascii_character, b'!');
    assert_eq!(writer.read_cell(1, 1).color_code, color);
    assert_eq!(writer.position(), (1, 2));
}

#[test]
fn full_line_wraps_before_the_next_byte() {
    let mut writer = fresh_writer();
    for _ in 0..BUFFER_WIDTH {
        writer.write_byte(b'X');
    }
    assert_eq!(writer.position(), (0, BUFFER_WIDTH));
    writer.write_byte(b'Y');
    assert_eq!(writer.position(), (1, 1));
    assert_eq!(writer.read_cell(1, 0).ascii_character, b'Y');
    for col in 0..BUFFER_WIDTH {
        assert_eq!(writer.read_cell(0, col).ascii_character, b'X');
    }
}

#[test]
fn newline_above_last_row_does_not_scroll() {
    let mut writer = fresh_writer();
    writer.write_byte(b'q');
    writer.write_byte(b'\n');
    assert_eq!(writer.position(), (1, 0));
    assert_eq!(writer.read_cell(0, 0).ascii_character, b'q');
    writer.write_byte(b'\n');
    assert_eq!(writer.position(), (2, 0));
    assert_eq!(writer.read_cell(0, 0).ascii_character, b'q');
}

#[test]
fn newline_on_last_row_scrolls() {
    let mut writer = fresh_writer();
    for row in 0..BUFFER_HEIGHT - 1 {
        writer.write_byte(b'a' + (row % 24) as u8);
        writer.write_byte(b'\n');
    }
    assert_eq!(writer.position(), (BUFFER_HEIGHT - 1, 0));
    writer.write_byte(b'*');
    writer.write_byte(b'\n');
    assert_eq!(writer.position(), (BUFFER_HEIGHT - 1, 0));
    for row in 0..BUFFER_HEIGHT - 2 {
        assert_eq!(
            writer.read_cell(row, 0).ascii_character,
            b'a' + ((row + 1) % 24) as u8
        );
    }
    assert_eq!(writer.read_cell(BUFFER_HEIGHT - 2, 0).ascii_character, b'*');
    for col in 0..BUFFER_WIDTH {
        assert_eq!(writer.read_cell(BUFFER_HEIGHT - 1, col).ascii_character, b' ');
    }
}

#[test]
fn clear_screen_blanks_everything() {
    let mut writer = fresh_writer();
    let color = ColorCode::new(Color::LightGreen, Color::Black);
    let blank = ScreenChar { ascii_character: b' ', color_code: color };
    writer.write_str("some leftover text\nand a second line");
    writer.clear_screen();
    assert_eq!(writer.position(), (BUFFER_HEIGHT - 1, 0));
    for row in 0..BUFFER_HEIGHT {
        for col in 0..BUFFER_WIDTH {
            assert_eq!(writer.read_cell(row, col), blank);
        }
    }
}

#[test]
fn null_byte_renders_as_a_space() {
    let mut with_null = fresh_writer();
    let mut with_space = fresh_writer();
    with_null.write_byte(b'x');
    with_space.write_byte(b'x');
    with_null.write_byte(b'\0');
    with_space.write_byte(b' ');
    assert_eq!(with_null.position(), with_space.position());
    assert_eq!(with_null.read_cell(0, 1), with_space.read_cell(0, 1));
    assert_eq!(with_null.read_cell(0, 1).ascii_character, b' ');
}

#[test]
fn write_str_places_bytes_in_order() {
    let mut writer = fresh_writer();
    writer.write_str("ab\ncd");
    assert_eq!(writer.read_cell(0, 0).ascii_character, b'a');
    assert_eq!(writer.read_cell(0, 1).ascii_character, b'b');
    assert_eq!(writer.read_cell(1, 0).ascii_character, b'c');
    assert_eq!(writer.read_cell(1, 1).ascii_character, b'd');
    assert_eq!(writer.position(), (1, 2));
}
