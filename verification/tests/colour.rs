use life_gl::colour::{is_hex_digit, parse_colour, ColourError, Rgb};

fn rgb(red: u8, green: u8, blue: u8) -> Rgb {
    Rgb { red, green, blue }
}

#[test]
fn default_alive_colour_is_white() {
    assert_eq!(parse_colour("#FFFFFF"), Ok(rgb(255, 255, 255)));
}

#[test]
fn default_dead_colour_is_black() {
    assert_eq!(parse_colour("#000000"), Ok(rgb(0, 0, 0)));
}

#[test]
fn readme_colours() {
    assert_eq!(parse_colour("#ff00ff"), Ok(rgb(255, 0, 255)));
    assert_eq!(parse_colour("#00ffff"), Ok(rgb(0, 255, 255)));
}

#[test]
fn mixed_digits() {
    assert_eq!(parse_colour("#2F14DF"), Ok(rgb(0x2f, 0x14, 0xdf)));
    assert_eq!(parse_colour("#0a1B9c"), Ok(rgb(10, 27, 156)));
}

#[test]
fn case_does_not_matter() {
    assert_eq!(parse_colour("#ABCDEF"), parse_colour("#abcdef"));
    assert_eq!(parse_colour("#AbCdEf"), Ok(rgb(0xab, 0xcd, 0xef)));
}

#[test]
fn trailing_characters_are_ignored() {
    assert_eq!(parse_colour("#123456789"), Ok(rgb(0x12, 0x34, 0x56)));
    assert_eq!(parse_colour("#123456 and more"), Ok(rgb(0x12, 0x34, 0x56)));
}

#[test]
fn empty_argument_needs_a_hash() {
    assert_eq!(parse_colour(""), Err(ColourError::Incomplete(1)));
}

#[test]
fn missing_hash() {
    assert_eq!(parse_colour("FFFFFF"), Err(ColourError::MissingHash));
    assert_eq!(parse_colour(" #FFFFFF"), Err(ColourError::MissingHash));
}

#[test]
fn short_arguments_are_incomplete() {
    assert_eq!(parse_colour("#"), Err(ColourError::Incomplete(2)));
    assert_eq!(parse_colour("#F"), Err(ColourError::Incomplete(1)));
    assert_eq!(parse_colour("#FF"), Err(ColourError::Incomplete(2)));
    assert_eq!(parse_colour("#FFFF"), Err(ColourError::Incomplete(2)));
    assert_eq!(parse_colour("#FFFFF"), Err(ColourError::Incomplete(1)));
}

#[test]
fn bad_digits_name_their_pair() {
    assert_eq!(parse_colour("#G00000"), Err(ColourError::BadHexPair(1)));
    assert_eq!(parse_colour("#0G0000"), Err(ColourError::BadHexPair(1)));
    assert_eq!(parse_colour("#00zz00"), Err(ColourError::BadHexPair(3)));
    assert_eq!(parse_colour("#0000 0"), Err(ColourError::BadHexPair(5)));
    assert_eq!(parse_colour("#F "), Err(ColourError::BadHexPair(1)));
}

#[test]
fn bad_digit_before_the_end_wins_over_shortness() {
    assert_eq!(parse_colour("#00-"), Err(ColourError::BadHexPair(3)));
}

#[test]
fn non_ascii_is_not_a_digit() {
    assert_eq!(parse_colour("#é00000"), Err(ColourError::BadHexPair(1)));
    assert_eq!(parse_colour("é"), Err(ColourError::MissingHash));
}

#[test]
fn hex_digit_classes() {
    for c in "0123456789abcdefABCDEF".chars() {
        assert!(is_hex_digit(c));
    }
    for c in "gGzZ#-/:@`x ".chars() {
        assert!(!is_hex_digit(c));
    }
}
