use interrupt_core::vga::{colour_as_byte, Colour, Screen, ScreenChar};

#[test]
fn colour_byte_packs_foreground_low() {
    assert_eq!(colour_as_byte(Colour::White, Colour::Black), 0x0f);
    assert_eq!(colour_as_byte(Colour::Black, Colour::White), 0xf0);
    assert_eq!(colour_as_byte(Colour::LightGreen, Colour::Blue), 0x1a);
    assert_eq!(ScreenChar::new(b'A', Colour::Red, Colour::Cyan), ScreenChar { character: b'A', colour: 0x34 });
}

#[test]
fn new_screen_is_blank() {
    let s = Screen::default();
    assert_eq!(s.cursor(), (0, 0));
    assert_eq!(s.char_at(24, 79), ScreenChar { character: b' ', colour: 0x0f });
}

#[test]
fn write_string_places_bytes_and_breaks_lines() {
    let mut s = Screen::with_colours(Colour::White, Colour::Black);
    s.write_string("hi\nyo");
    assert_eq!(s.char_at(0, 0).character, b'h');
    assert_eq!(s.char_at(0, 1).character, b'i');
    assert_eq!(s.char_at(1, 0).character, b'y');
    assert_eq!(s.char_at(1, 1).character, b'o');
    assert_eq!(s.cursor(), (2, 1));
}

#[test]
fn unprintable_bytes_show_question_mark() {
    let mut s = Screen::default();
    s.write_byte(7);
    s.write_byte(200);
    assert_eq!(s.char_at(0, 0).character, b'?');
    assert_eq!(s.char_at(0, 1).character, b'?');
}

#[test]
fn line_wraps_at_last_column() {
    let mut s = Screen::default();
    for _ in 0..80 {
        s.write_byte(b'x');
    }
    assert_eq!(s.cursor(), (0, 1));
    s.write_byte(b'y');
    assert_eq!(s.char_at(1, 0).character, b'y');
}

#[test]
fn scrolling_past_last_row_moves_text_up() {
    let mut s = Screen::default();
    s.write_string("top\n");
    for _ in 0..24 {
        s.new_line();
    }
    assert_eq!(s.cursor(), (0, 24));
    assert_eq!(s.char_at(0, 0).character, b' ');
    s.set_colours(Some(Colour::Black), Some(Colour::White));
    s.scroll_down();
    assert_eq!(s.cursor(), (0, 23));
    assert_eq!(s.char_at(24, 5), ScreenChar { character: b' ', colour: 0xf0 });
}

#[test]
fn set_colours_changes_only_given_colours() {
    let mut s = Screen::default();
    s.set_colours(Some(Colour::Yellow), None);
    assert_eq!(s.screen_char(b'a').colour, 0x0e);
    s.set_colours(None, Some(Colour::Blue));
    assert_eq!(s.screen_char(b'a').colour, 0x1e);
    s.clear();
    assert_eq!(s.char_at(3, 3), ScreenChar { character: b' ', colour: 0x1e });
}
