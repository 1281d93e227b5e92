use pbr_demo::args::{
    get_args, get_color, parse_number, ArgsError, Color, ColorError, Given, DEFAULT_AMBIENT,
    DEFAULT_COLOR, DEFAULT_LIGHTS,
};
use pbr_demo::number::Scalar;

fn values(texts: &[&str]) -> Vec<String> {
    texts.iter().map(|text| text.to_string()).collect()
}

fn scalar(value: f32) -> Scalar {
    Scalar { bits: value.to_bits() }
}

fn rgb(red: u8, green: u8, blue: u8) -> Color {
    Color { red, green, blue, alpha: None }
}

fn given(lights: &str, ambient: &[&str], color: &[&str]) -> Given {
    let factor = |texts: &[&str]| texts.get(1).and_then(|text| text.parse().ok()).map(scalar);
    Given {
        objects: values(&["cube", "sphere"]),
        lights: lights.to_string(),
        ambient: values(ambient),
        ambient_factor: factor(ambient),
        color: values(color),
        color_factor: factor(color),
    }
}

#[test]
fn numbers_are_read_as_std_reads_them() {
    let texts = [
        "", "+", "-", "0", "5", "+5", "-5", "007", "12a", "1 ", " 1", "1_0", "++1", "1+", "é",
        "18446744073709551615", "18446744073709551616", "99999999999999999999999",
        "99999999999999999999999x", "ff", "FF", "fF", "xyz", "4d479b",
    ];
    for text in texts {
        for radix in [2u32, 10, 16, 36] {
            assert_eq!(
                parse_number(text, radix as u64, u64::MAX),
                u64::from_str_radix(text, radix).ok(),
                "{} in radix {}",
                text,
                radix
            );
        }
        assert_eq!(
            parse_number(text, 10, usize::MAX as u64).map(|n| n as usize),
            text.parse::<usize>().ok()
        );
    }
    assert_eq!(parse_number("100", 10, 100), Some(100));
    assert_eq!(parse_number("101", 10, 100), None);
}

#[test]
fn six_digits_give_the_channels() {
    assert_eq!(get_color(&values(&["4d479b"]), None), Ok(rgb(0x4d, 0x47, 0x9b)));
    assert_eq!(get_color(&values(&["E0BD91"]), None), Ok(rgb(0xe0, 0xbd, 0x91)));
    assert_eq!(get_color(&values(&["000000"]), None), Ok(rgb(0, 0, 0)));
    assert_eq!(get_color(&values(&["fFfFfF"]), None), Ok(rgb(255, 255, 255)));
}

#[test]
fn every_channel_value_can_be_written() {
    for value in 0..=255u8 {
        let other = 255 - value;
        let lower = format!("{:02x}{:02x}{:02x}", value, other, value / 2);
        let upper = format!("{:02X}{:02X}{:02X}", value, other, value / 2);
        assert_eq!(get_color(&values(&[&lower]), None), Ok(rgb(value, other, value / 2)));
        assert_eq!(get_color(&values(&[&upper]), None), Ok(rgb(value, other, value / 2)));
    }
}

#[test]
fn a_plus_takes_the_place_of_a_digit() {
    assert_eq!(get_color(&values(&["+abcde"]), None), Ok(rgb(0x0a, 0xbc, 0xde)));
}

#[test]
fn a_second_value_is_a_factor_on_the_opacity() {
    let factor = scalar(0.5);
    assert_eq!(
        get_color(&values(&["102030", "0.5"]), Some(factor)),
        Ok(Color { red: 0x10, green: 0x20, blue: 0x30, alpha: Some(factor) })
    );
    assert_eq!(get_color(&values(&["102030"]), Some(factor)), Ok(rgb(0x10, 0x20, 0x30)));
}

#[test]
fn every_color_error_has_its_input() {
    assert_eq!(get_color(&values(&[]), None), Err(ColorError::Missing));
    assert_eq!(get_color(&values(&["abc"]), None), Err(ColorError::Length));
    assert_eq!(get_color(&values(&["#4d479b"]), None), Err(ColorError::Length));
    assert_eq!(get_color(&values(&[""]), None), Err(ColorError::Length));
    assert_eq!(get_color(&values(&["4d479g"]), None), Err(ColorError::Digits));
    assert_eq!(get_color(&values(&["-00001"]), None), Err(ColorError::Digits));
    assert_eq!(get_color(&values(&["102030", "much"]), None), Err(ColorError::Factor));
}

#[test]
fn the_length_of_a_color_is_counted_in_bytes() {
    assert_eq!(get_color(&values(&["éabcd"]), None), Err(ColorError::Digits));
    assert_eq!(get_color(&values(&["éabcde"]), None), Err(ColorError::Length));
}

#[test]
fn the_digits_are_looked_at_before_the_factor() {
    assert_eq!(get_color(&values(&["xxxxxx", "much"]), None), Err(ColorError::Digits));
}

#[test]
fn color_errors_have_words() {
    assert_eq!(ColorError::Missing.message(), "No color provided");
    assert_eq!(ColorError::Length.message(), "Invalid color format (not 6 chars)");
    assert_eq!(ColorError::Digits.message(), "Invalid color format (not hex)");
    assert_eq!(ColorError::Factor.message(), "Second parameter is not a float");
}

#[test]
fn the_defaults_can_be_read() {
    let args = get_args(given(DEFAULT_LIGHTS, &[DEFAULT_AMBIENT], &[DEFAULT_COLOR]));
    let args = match args {
        Ok(args) => args,
        Err(error) => panic!("{}", error.message()),
    };
    assert_eq!(args.directories, values(&["cube", "sphere"]));
    assert_eq!(args.light_count, 5);
    assert_eq!(args.ambient, rgb(0x4d, 0x47, 0x9b));
    assert_eq!(args.color, rgb(0xe0, 0xbd, 0x91));
}

#[test]
fn the_first_unreadable_argument_is_named() {
    let error = |given| get_args(given).err();
    let good = ["102030"];
    assert_eq!(error(given("x", &["x"], &["x"])), Some(ArgsError::LightCount));
    assert_eq!(
        error(given("3", &["x"], &["x"])),
        Some(ArgsError::Ambient(ColorError::Length))
    );
    assert_eq!(
        error(given("3", &good, &["102030", "x"])),
        Some(ArgsError::Color(ColorError::Factor))
    );
    assert_eq!(error(given("3", &good, &good)), None);
}

#[test]
fn argument_errors_have_words() {
    assert_eq!(ArgsError::LightCount.message(), "Could not parse light count");
    assert_eq!(
        ArgsError::Ambient(ColorError::Digits).message(),
        "Could not parse ambient color arg"
    );
    assert_eq!(
        ArgsError::Color(ColorError::Digits).message(),
        "Could not parse light color arg"
    );
}
