use vga_text::color::Color;
use vga_text::color::ColorCode;
use vga_text::console::clear_screen;
use vga_text::console::Console;
use vga_text::vga_buffer::Buffer;
use vga_text::vga_buffer::ScreenChar;
use vga_text::vga_buffer::Writer;
use vga_text::vga_buffer::BUFFER_HEIGHT;
use vga_text::vga_buffer::BUFFER_WIDTH;

fn fresh_writer() -> Writer {
    let color = ColorCode::new(Color::LightGreen, Color::Black);
    let blank = ScreenChar { ascii_character: b' ', color_code: color };
    Writer::new(Buffer::new(blank), color)
}

#[test]
fn print_reaches_the_grid() {
    let console = Console::new(fresh_writer());
    console.print("Hello!!!");
    let writer = console.into_writer();
    for (col, byte) in b"Hello!!!".iter().enumerate() {
        assert_eq!(writer.read_cell(0, col).ascii_character, *byte);
    }
    assert_eq!(writer.position(), (0, 8));
}

#[test]
fn print_bytes_matches_print() {
    let by_str = Console::new(fresh_writer());
    let by_bytes = Console::new(fresh_writer());
    by_str.print("two\nlines");
    by_bytes.print_bytes(b"two\nlines");
    let a = by_str.into_writer();
    let b = by_bytes.into_writer();
    assert_eq!(a.position(), b.position());
    for row in 0..BUFFER_HEIGHT {
        for col in 0..BUFFER_WIDTH {
            assert_eq!(a.read_cell(row, col), b.read_cell(row, col));
        }
    }
}

#[test]
fn clear_screen_through_the_console() {
    let color = ColorCode::new(Color::LightGreen, Color::Black);
    let blank = ScreenChar { ascii_character: b' ', color_code: color };
    let console = Console::new(fresh_writer());
    console.print("about to vanish");
    clear_screen(&console);
    let writer = console.into_writer();
    assert_eq!(writer.position(), (BUFFER_HEIGHT - 1, 0));
    for row in 0..BUFFER_HEIGHT {
        for col in 0..BUFFER_WIDTH {
            assert_eq!(writer.read_cell(row, col), blank);
        }
    }
}

#[test]
fn interleaved_prints_match_a_serialized_reference() {
    // Two callers, each issuing a bounded sequence of writes through the
    // lock; the calls interleave at lock granularity.  The final grid must
    // equal a sequential reference execution of the same call order.
    let console = Console::new(fresh_writer());
    let caller_one = ["first ", "caller\n"];
    let caller_two = ["second ", "caller\n"];
    console.print(caller_one[0]);
    console.print(caller_two[0]);
    console.print(caller_two[1]);
    console.print(caller_one[1]);
    let shared = console.into_writer();

    let mut reference = fresh_writer();
    reference.write_str(caller_one[0]);
    reference.write_str(caller_two[0]);
    reference.write_str(caller_two[1]);
    reference.write_str(caller_one[1]);

    assert_eq!(shared.position(), reference.position());
    for row in 0..BUFFER_HEIGHT {
        for col in 0..BUFFER_WIDTH {
            assert_eq!(shared.read_cell(row, col), reference.read_cell(row, col));
        }
    }
}
