use cyber_tomato::ascii_digits::{create_time_display_lines, display_rows, get_digit_lines};
use cyber_tomato::layout::{centered_rect, centered_split, Area};
use ratatui::style::{Color, Style};
use cyber_tomato::custom_input::{
    char_is_whitespace, parse_custom_input, parse_minutes, to_chars, trim, CustomInputError,
};
use cyber_tomato::text::{format_duration, push_decimal, push_two_digits};
use cyber_tomato::timer::PomodoroTimer;

fn chars(text: &str) -> Vec<char> {
    text.chars().collect()
}

#[test]
fn digit_glyphs() {
    assert_eq!(get_digit_lines('0'), vec![" 0000 ", "00  00", "00  00", "00  00", " 0000 "]);
    assert_eq!(get_digit_lines('7'), vec!["777777", "   77 ", "  77  ", " 77   ", "77    "]);
    assert_eq!(get_digit_lines(':'), vec!["      ", "  ::  ", "      ", "  ::  ", "      "]);
    assert_eq!(get_digit_lines('a'), vec!["      "; 5]);
    for digit in "0123456789:x".chars() {
        let lines = get_digit_lines(digit);
        assert_eq!(lines.len(), 5);
        assert!(lines.iter().all(|line| line.chars().count() == 6));
    }
}

#[test]
fn time_display_rows() {
    let lines = display_rows("12:30");
    assert_eq!(
        lines,
        vec![
            " 1111   2222          3333   0000  ",
            "   11  22  22   ::   33  33 00  00 ",
            "   11     22            333 00  00 ",
            "   11    22     ::   33  33 00  00 ",
            "111111 222222         3333   0000  ",
        ]
    );
    assert_eq!(display_rows(""), vec![""; 5]);
    assert_eq!(display_rows("é"), vec!["       "; 5]);
}

#[test]
fn time_display_lines_carry_text_and_colour() {
    let lines = create_time_display_lines("05:09", Color::Rgb(144, 255, 161));
    let rows = display_rows("05:09");
    assert_eq!(lines.len(), 5);
    for (line, row) in lines.iter().zip(rows.iter()) {
        assert_eq!(line.to_string(), *row);
        assert_eq!(line.style, Style::default().fg(Color::Rgb(144, 255, 161)));
        assert_eq!(line.alignment, None);
    }
    assert_eq!(lines[1].to_string(), "00  00 55       ::   00  00 99  99 ");
    let empty = create_time_display_lines("", Color::Red);
    assert_eq!(empty.len(), 5);
    assert!(empty.iter().all(|line| line.to_string().is_empty()));
    assert_eq!(empty[0].style.fg, Some(Color::Red));
}

#[test]
fn popup_is_centred() {
    assert_eq!(centered_split(60), (20, 60, 20));
    assert_eq!(centered_split(75), (12, 75, 12));
    assert_eq!(centered_split(100), (0, 100, 0));
    assert_eq!(centered_split(0), (50, 0, 50));
    let screen = Area { x: 0, y: 0, width: 100, height: 50 };
    assert_eq!(centered_rect(60, 60, screen), Area { x: 20, y: 10, width: 60, height: 30 });
    assert_eq!(
        centered_rect(70, 50, Area { x: 10, y: 4, width: 200, height: 40 }),
        Area { x: 40, y: 14, width: 140, height: 20 }
    );
    assert_eq!(centered_rect(100, 100, screen), screen);
}

#[test]
fn popup_lies_within_the_screen() {
    let screens = [
        Area { x: 0, y: 0, width: 100, height: 50 },
        Area { x: 17, y: 23, width: 333, height: 77 },
        Area { x: 3, y: 7, width: 0, height: 0 },
        Area { x: 3, y: 7, width: 1, height: 1 },
        Area { x: 65530, y: 65000, width: 100, height: 1000 },
        Area { x: 65535, y: 65535, width: 65535, height: 65535 },
    ];
    for screen in screens {
        for percent_x in (0..=100u16).step_by(7) {
            for percent_y in (0..=100u16).step_by(9) {
                let popup = centered_rect(percent_x, percent_y, screen);
                assert!(screen.x <= popup.x && screen.y <= popup.y, "{:?} {:?}", screen, popup);
                assert!(
                    popup.x as u32 + popup.width as u32 <= screen.x as u32 + screen.width as u32,
                    "{:?} {:?}",
                    screen,
                    popup
                );
                assert!(
                    popup.y as u32 + popup.height as u32 <= screen.y as u32 + screen.height as u32,
                    "{:?} {:?}",
                    screen,
                    popup
                );
            }
        }
    }
}

#[test]
fn custom_input_forms() {
    assert_eq!(parse_custom_input("30,10"), Ok((30, Some(10))));
    assert_eq!(parse_custom_input("20"), Ok((20, None)));
    assert_eq!(parse_custom_input(" 5 ,\t6 "), Ok((5, Some(6))));
    assert_eq!(parse_custom_input("+7"), Ok((7, None)));
    assert_eq!(parse_custom_input("007,+1"), Ok((7, Some(1))));
    assert_eq!(parse_custom_input("4294967295"), Ok((u32::MAX, None)));
}

#[test]
fn custom_input_errors() {
    assert_eq!(parse_custom_input("1,2,3"), Err(CustomInputError::InvalidFormat));
    assert_eq!(parse_custom_input(",,"), Err(CustomInputError::InvalidFormat));
    assert_eq!(parse_custom_input(""), Err(CustomInputError::InvalidWorkMinutes));
    assert_eq!(parse_custom_input("abc"), Err(CustomInputError::InvalidWorkMinutes));
    assert_eq!(parse_custom_input(" 5"), Err(CustomInputError::InvalidWorkMinutes));
    assert_eq!(parse_custom_input("-5"), Err(CustomInputError::InvalidWorkMinutes));
    assert_eq!(parse_custom_input("+"), Err(CustomInputError::InvalidWorkMinutes));
    assert_eq!(parse_custom_input("4294967296"), Err(CustomInputError::InvalidWorkMinutes));
    assert_eq!(parse_custom_input(",5"), Err(CustomInputError::InvalidWorkMinutes));
    assert_eq!(parse_custom_input("5,"), Err(CustomInputError::InvalidBreakMinutes));
    assert_eq!(parse_custom_input("5,x"), Err(CustomInputError::InvalidBreakMinutes));
    assert_eq!(parse_custom_input("5,99999999999"), Err(CustomInputError::InvalidBreakMinutes));
    assert_eq!(parse_custom_input("0"), Err(CustomInputError::ZeroMinutes));
    assert_eq!(parse_custom_input("0,5"), Err(CustomInputError::ZeroMinutes));
    assert_eq!(parse_custom_input("5,0"), Err(CustomInputError::ZeroMinutes));
    let timer = PomodoroTimer::new();
    assert_eq!(timer.parse_custom_input("x,0"), Err(CustomInputError::InvalidWorkMinutes));
}

#[test]
fn error_messages() {
    assert_eq!(
        CustomInputError::InvalidFormat.message(),
        "Invalid format. Use 'work,break' or just 'work'"
    );
    assert_eq!(CustomInputError::InvalidWorkMinutes.message(), "Invalid work minutes");
    assert_eq!(CustomInputError::InvalidBreakMinutes.message(), "Invalid break minutes");
    assert_eq!(CustomInputError::ZeroMinutes.message(), "Minutes must be greater than 0");
}

#[test]
fn parsing_agrees_with_the_standard_library() {
    for text in ["", "0", "12", "+12", "-1", "++1", "1 ", "٣", "4294967295", "4294967296", "00000000000001"] {
        assert_eq!(parse_minutes(&chars(text)), text.parse::<u32>().ok(), "{:?}", text);
    }
}

#[test]
fn trimming_agrees_with_the_standard_library() {
    for text in ["", "   ", " a b ", "\t\n x\u{3000}", "\u{a0}1\u{2003}", "x", "\u{200b}y "] {
        assert_eq!(trim(&chars(text)), chars(text.trim()), "{:?}", text);
    }
    for code in 0u32..0x3100 {
        if let Some(c) = char::from_u32(code) {
            assert_eq!(char_is_whitespace(c), c.is_whitespace(), "{:x}", code);
        }
    }
    assert_eq!(to_chars("a,é"), vec!['a', ',', 'é']);
}

#[test]
fn decimal_texts() {
    let mut out = String::from("n=");
    push_decimal(&mut out, 0);
    push_decimal(&mut out, 907);
    assert_eq!(out, "n=0907");
    let mut padded = String::new();
    push_two_digits(&mut padded, 7);
    push_two_digits(&mut padded, 10);
    push_two_digits(&mut padded, 123);
    assert_eq!(padded, "0710123");
    assert_eq!(format_duration(61_999), "01:01");
}
