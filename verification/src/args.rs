//! The meaning of the demo's command-line values.
use crate::number::Scalar;
use vstd::prelude::*;
use vstd::utf8::encode_utf8;

verus! {

/// The value of an ASCII digit or letter as a digit; 36 for any other byte.
pub open spec fn digit_value(byte: u8) -> int {
    if 0x30 <= byte <= 0x39 {
        byte - 0x30
    } else if 0x41 <= byte <= 0x5a {
        byte - 0x41 + 10
    } else if 0x61 <= byte <= 0x7a {
        byte - 0x61 + 10
    } else {
        36
    }
}

/// Every byte is a digit in the given radix.
pub open spec fn all_digits(digits: Seq<u8>, radix: int) -> bool {
    forall|i: int| 0 <= i < digits.len() ==> digit_value(#[trigger] digits[i]) < radix
}

/// The number that a row of digits stands for, most significant digit first.
pub open spec fn digits_value(digits: Seq<u8>, radix: int) -> int
    decreases digits.len(),
{
    if digits.len() == 0 {
        0
    } else {
        digits_value(digits.drop_last(), radix) * radix + digit_value(digits.last())
    }
}

/// What is left of a number's text behind the `+` that it may start with.
pub open spec fn unsigned_part(text: Seq<u8>) -> Seq<u8> {
    if text.len() > 0 && text[0] == 0x2b {
        text.skip(1)
    } else {
        text
    }
}

/// The number that a text stands for: an optional `+`, then one digit or more,
/// for a value of at most `max`. Any other text stands for no number.
pub open spec fn number_of(text: Seq<u8>, radix: int, max: int) -> Option<int> {
    let digits = unsigned_part(text);
    if digits.len() > 0 && all_digits(digits, radix) && digits_value(digits, radix) <= max {
        Some(digits_value(digits, radix))
    } else {
        None
    }
}

/// A row of digits is worth at least as much as each of its beginnings.
pub(crate) proof fn lemma_prefix_value(digits: Seq<u8>, radix: int, n: int)
    requires
        1 <= radix,
        0 <= n <= digits.len(),
    ensures
        0 <= digits_value(digits.take(n), radix) <= digits_value(digits, radix),
    decreases digits.len(),
{
    if n == digits.len() {
        assert(digits.take(n) =~= digits);
        if n > 0 {
            lemma_prefix_value(digits.drop_last(), radix, n - 1);
            assert(digits.drop_last().take(n - 1) =~= digits.drop_last());
            let high = digits_value(digits.drop_last(), radix);
            assert(high * radix >= 0) by (nonlinear_arith)
                requires
                    high >= 0,
                    radix >= 1,
            ;
        }
    } else {
        lemma_prefix_value(digits.drop_last(), radix, n);
        assert(digits.drop_last().take(n) =~= digits.take(n));
        let high = digits_value(digits.drop_last(), radix);
        assert(high * radix >= high) by (nonlinear_arith)
            requires
                high >= 0,
                radix >= 1,
        ;
    }
}

/// The value of an ASCII digit or letter as a digit; 36 for any other byte.
fn digit(byte: u8) -> (value: u64)
    ensures
        value == digit_value(byte),
        value <= 36,
{
    if 0x30 <= byte && byte <= 0x39 {
        (byte - 0x30) as u64
    } else if 0x41 <= byte && byte <= 0x5a {
        (byte - 0x41) as u64 + 10
    } else if 0x61 <= byte && byte <= 0x7a {
        (byte - 0x61) as u64 + 10
    } else {
        36
    }
}

/// Reads a number of at most `max` in the given radix.
pub fn parse_number(text: &str, radix: u64, max: u64) -> (number: Option<u64>)
    requires
        2 <= radix <= 36,
    ensures
        match number {
            Some(value) => number_of(encode_utf8(text@), radix as int, max as int) == Some(
                value as int,
            ),
            None => number_of(encode_utf8(text@), radix as int, max as int) is None,
        },
{
    let bytes = text.as_bytes();
    let start: usize = if bytes.len() > 0 && bytes[0] == 0x2b {
        1
    } else {
        0
    };
    let ghost digits = unsigned_part(bytes@);
    assert(digits =~= bytes@.skip(start as int));
    if start == bytes.len() {
        return None;
    }
    let mut value: u64 = 0;
    let mut i: usize = start;
    assert(digits.take(0) =~= Seq::<u8>::empty());
    while i < bytes.len()
        invariant
            2 <= radix <= 36,
            start <= i <= bytes.len(),
            bytes@ == encode_utf8(text@),
            digits == unsigned_part(bytes@),
            digits == bytes@.skip(start as int),
            all_digits(digits.take(i - start), radix as int),
            value == digits_value(digits.take(i - start), radix as int),
            value <= max,
        decreases bytes.len() - i,
    {
        let d = digit(bytes[i]);
        assert(digits[i - start] == bytes@[i as int]);
        if d >= radix {
            return None;
        }
        let ghost next = digits.take(i + 1 - start);
        assert(next.drop_last() =~= digits.take(i - start));
        assert(value * radix <= u64::MAX * 36) by (nonlinear_arith)
            requires
                0 <= value <= u64::MAX,
                0 <= radix <= 36,
        ;
        let wide: u128 = value as u128 * radix as u128 + d as u128;
        assert(wide == digits_value(next, radix as int));
        if wide > max as u128 {
            proof {
                lemma_prefix_value(digits, radix as int, i + 1 - start);
            }
            return None;
        }
        value = wide as u64;
        i += 1;
    }
    assert(digits.take(i - start) =~= digits);
    Some(value)
}

/// A colour as its argument gives it: three channels in 255ths, and the factor
/// on the opacity of one, where there is one.
#[derive(Clone, Copy, Debug, PartialEq, Eq)]
pub struct Color {
    pub red: u8,
    pub green: u8,
    pub blue: u8,
    pub alpha: Option<Scalar>,
}

/// Why the values of an argument give no colour.
#[derive(Clone, Copy, Debug, PartialEq, Eq)]
pub enum ColorError {
    /// There is no value.
    Missing,
    /// The first value is not six bytes long.
    Length,
    /// The first value is not a hexadecimal number.
    Digits,
    /// The second value is not a floating-point number.
    Factor,
}

impl ColorError {
    /// The error in words.
    pub fn message(&self) -> (text: &'static str)
        ensures
            text@ == match *self {
                ColorError::Missing => "No color provided"@,
                ColorError::Length => "Invalid color format (not 6 chars)"@,
                ColorError::Digits => "Invalid color format (not hex)"@,
                ColorError::Factor => "Second parameter is not a float"@,
            },
    {
        match self {
            ColorError::Missing => "No color provided",
            ColorError::Length => "Invalid color format (not 6 chars)",
            ColorError::Digits => "Invalid color format (not hex)",
            ColorError::Factor => "Second parameter is not a float",
        }
    }
}

/// The colour that the values of an argument give: the first value is a
/// hexadecimal number of six bytes, the second, where there is one, a factor on
/// the opacity. `factor` is what the second value reads as, `None` where it is
/// no floating-point number.
pub open spec fn color_of(values: Seq<String>, factor: Option<Scalar>) -> Result<
    Color,
    ColorError,
> {
    if values.len() == 0 {
        Err(ColorError::Missing)
    } else if encode_utf8(values[0]@).len() != 6 {
        Err(ColorError::Length)
    } else {
        match number_of(encode_utf8(values[0]@), 16, u64::MAX as int) {
            None => Err(ColorError::Digits),
            Some(number) => if values.len() > 1 && factor is None {
                Err(ColorError::Factor)
            } else {
                Ok(
                    Color {
                        red: (number / 65536 % 256) as u8,
                        green: (number / 256 % 256) as u8,
                        blue: (number % 256) as u8,
                        alpha: if values.len() > 1 {
                            factor
                        } else {
                            None
                        },
                    },
                )
            },
        }
    }
}

/// Reads a colour from the values of its argument.
///
/// `factor` is the second value as a floating-point number: `None` where it is
/// not one. Where there is no second value it is not looked at.
pub fn get_color(values: &Vec<String>, factor: Option<Scalar>) -> (color: Result<
    Color,
    ColorError,
>)
    ensures
        color == color_of(values@, factor),
{
    if values.len() == 0 {
        return Err(ColorError::Missing);
    }
    let text = values[0].as_str();
    if text.as_bytes().len() != 6 {
        return Err(ColorError::Length);
    }
    match parse_number(text, 16, u64::MAX) {
        None => Err(ColorError::Digits),
        Some(z) => {
            if values.len() > 1 && factor.is_none() {
                return Err(ColorError::Factor);
            }
            assert((z >> 16) & 0xff == z / 65536 % 256) by (bit_vector);
            assert((z >> 8) & 0xff == z / 256 % 256) by (bit_vector);
            assert(z & 0xff == z % 256) by (bit_vector);
            Ok(
                Color {
                    red: ((z >> 16) & 0xff) as u8,
                    green: ((z >> 8) & 0xff) as u8,
                    blue: (z & 0xff) as u8,
                    alpha: if values.len() > 1 {
                        factor
                    } else {
                        None
                    },
                },
            )
        },
    }
}

/// The number of lights, where the argument is left out.
pub const DEFAULT_LIGHTS: &'static str = "5";

/// The ambient colour, where the argument is left out.
pub const DEFAULT_AMBIENT: &'static str = "4d479b";

/// The colour of the lights, where the argument is left out.
pub const DEFAULT_COLOR: &'static str = "e0bd91";

/// The values that the command line gives, as text. Each colour comes with its
/// second value read as a floating-point number, as `get_color` takes it.
pub struct Given {
    pub objects: Vec<String>,
    pub lights: String,
    pub ambient: Vec<String>,
    pub ambient_factor: Option<Scalar>,
    pub color: Vec<String>,
    pub color_factor: Option<Scalar>,
}

/// What the command line asks for.
pub struct Args {
    /// The directories of the objects.
    pub directories: Vec<String>,
    pub light_count: usize,
    pub ambient: Color,
    pub color: Color,
}

/// Why the command line asks for nothing that can be shown.
#[derive(Clone, Copy, Debug, PartialEq, Eq)]
pub enum ArgsError {
    /// The number of lights is not a number.
    LightCount,
    /// The ambient colour is not a colour.
    Ambient(ColorError),
    /// The colour of the lights is not a colour.
    Color(ColorError),
}

impl ArgsError {
    /// The error in words.
    pub fn message(&self) -> (text: &'static str)
        ensures
            text@ == match *self {
                ArgsError::LightCount => "Could not parse light count"@,
                ArgsError::Ambient(_) => "Could not parse ambient color arg"@,
                ArgsError::Color(_) => "Could not parse light color arg"@,
            },
    {
        match self {
            ArgsError::LightCount => "Could not parse light count",
            ArgsError::Ambient(_) => "Could not parse ambient color arg",
            ArgsError::Color(_) => "Could not parse light color arg",
        }
    }
}

/// Reads the command line's values, in the order lights, ambient colour, light
/// colour: the error is that of the first one that cannot be read.
pub fn get_args(given: Given) -> (args: Result<Args, ArgsError>)
    ensures
        ({
            let lights = number_of(encode_utf8(given.lights@), 10, usize::MAX as int);
            let ambient = color_of(given.ambient@, given.ambient_factor);
            let color = color_of(given.color@, given.color_factor);
            match args {
                Ok(args) => {
                    &&& args.directories == given.objects
                    &&& lights == Some(args.light_count as int)
                    &&& ambient == Ok::<Color, ColorError>(args.ambient)
                    &&& color == Ok::<Color, ColorError>(args.color)
                },
                Err(ArgsError::LightCount) => lights is None,
                Err(ArgsError::Ambient(error)) => {
                    &&& lights is Some
                    &&& ambient == Err::<Color, ColorError>(error)
                },
                Err(ArgsError::Color(error)) => {
                    &&& lights is Some
                    &&& ambient is Ok
                    &&& color == Err::<Color, ColorError>(error)
                },
            }
        }),
{
    let light_count = match parse_number(given.lights.as_str(), 10, usize::MAX as u64) {
        None => return Err(ArgsError::LightCount),
        Some(count) => count as usize,
    };
    let ambient = match get_color(&given.ambient, given.ambient_factor) {
        Err(error) => return Err(ArgsError::Ambient(error)),
        Ok(ambient) => ambient,
    };
    let color = match get_color(&given.color, given.color_factor) {
        Err(error) => return Err(ArgsError::Color(error)),
        Ok(color) => color,
    };
    Ok(Args { directories: given.objects, light_count, ambient, color })
}

/// Two hexadecimal digits stand for a channel's value.
pub open spec fn channel_digits(high: u8, low: u8, channel: u8) -> bool {
    &&& digit_value(high) < 16
    &&& digit_value(low) < 16
    &&& digit_value(high) * 16 + digit_value(low) == channel
}

/// The value of five hexadecimal digits.
pub(crate) proof fn lemma_five_digits(t: Seq<u8>)
    requires
        t.len() == 5,
    ensures
        digits_value(t, 16) == digit_value(t[0]) * 65536 + digit_value(t[1]) * 4096 + digit_value(
            t[2],
        ) * 256 + digit_value(t[3]) * 16 + digit_value(t[4]),
{
    let t4 = t.drop_last();
    let t3 = t4.drop_last();
    let t2 = t3.drop_last();
    let t1 = t2.drop_last();
    assert(digits_value(t1.drop_last(), 16) == 0);
    assert(digits_value(t1, 16) == digit_value(t[0]));
    assert(digits_value(t2, 16) == digits_value(t1, 16) * 16 + digit_value(t[1]));
    assert(digits_value(t3, 16) == digits_value(t2, 16) * 16 + digit_value(t[2]));
    assert(digits_value(t4, 16) == digits_value(t3, 16) * 16 + digit_value(t[3]));
}

/// The value of six hexadecimal digits.
pub(crate) proof fn lemma_six_digits(t: Seq<u8>)
    requires
        t.len() == 6,
    ensures
        digits_value(t, 16) == digit_value(t[0]) * 1048576 + digit_value(t[1]) * 65536
            + digit_value(t[2]) * 4096 + digit_value(t[3]) * 256 + digit_value(t[4]) * 16
            + digit_value(t[5]),
{
    let t5 = t.drop_last();
    let t4 = t5.drop_last();
    let t3 = t4.drop_last();
    let t2 = t3.drop_last();
    let t1 = t2.drop_last();
    assert(digits_value(t1.drop_last(), 16) == 0);
    assert(digits_value(t1, 16) == digit_value(t[0]));
    assert(digits_value(t2, 16) == digits_value(t1, 16) * 16 + digit_value(t[1]));
    assert(digits_value(t3, 16) == digits_value(t2, 16) * 16 + digit_value(t[2]));
    assert(digits_value(t4, 16) == digits_value(t3, 16) * 16 + digit_value(t[3]));
    assert(digits_value(t5, 16) == digits_value(t4, 16) * 16 + digit_value(t[4]));
}

/// Six bytes that write these hexadecimal digits, the first one perhaps a plus for
/// a zero, are the number of three channels.
pub(crate) proof fn lemma_color_number(t: Seq<u8>, d: Seq<int>)
    requires
        t.len() == 6,
        d.len() == 6,
        forall|i: int|
            0 <= i < 6 ==> 0 <= #[trigger] d[i] < 16 && (digit_value(t[i]) == d[i] || (i == 0
                && t[i] == 0x2b && d[i] == 0)),
    ensures
        number_of(t, 16, u64::MAX as int) == Some(
            (16 * d[0] + d[1]) * 65536 + (16 * d[2] + d[3]) * 256 + (16 * d[4] + d[5]),
        ),
{
    let digits = unsigned_part(t);
    assert(0 <= d[0] < 16 && 0 <= d[1] < 16 && 0 <= d[2] < 16);
    assert(0 <= d[3] < 16 && 0 <= d[4] < 16 && 0 <= d[5] < 16);
    if t[0] == 0x2b {
        assert(digits =~= t.skip(1));
        lemma_five_digits(digits);
        assert forall|i: int| 0 <= i < digits.len() implies digit_value(#[trigger] digits[i])
            < 16 by {
            assert(digits[i] == t[i + 1]);
            assert(0 <= d[i + 1] < 16);
        }
    } else {
        lemma_six_digits(t);
        assert forall|i: int| 0 <= i < digits.len() implies digit_value(#[trigger] digits[i])
            < 16 by {
            assert(0 <= d[i] < 16);
        }
    }
}

/// The channels of the number that they make up.
pub(crate) proof fn lemma_channels(red: int, green: int, blue: int)
    requires
        0 <= red < 256,
        0 <= green < 256,
        0 <= blue < 256,
    ensures
        (red * 65536 + green * 256 + blue) / 65536 % 256 == red,
        (red * 65536 + green * 256 + blue) / 256 % 256 == green,
        (red * 65536 + green * 256 + blue) % 256 == blue,
{
}

/// Six hexadecimal digits, two for each of red, green and blue and in letters
/// of either case, give the colour with these channels.
pub proof fn rrggbb_gives_its_channels(
    values: Seq<String>,
    factor: Option<Scalar>,
    red: u8,
    green: u8,
    blue: u8,
)
    requires
        values.len() > 0,
        values.len() > 1 ==> factor is Some,
        ({
            let text = encode_utf8(values[0]@);
            &&& text.len() == 6
            &&& channel_digits(text[0], text[1], red)
            &&& channel_digits(text[2], text[3], green)
            &&& channel_digits(text[4], text[5], blue)
        }),
    ensures
        color_of(values, factor) == Ok::<Color, ColorError>(
            Color {
                red,
                green,
                blue,
                alpha: if values.len() > 1 {
                    factor
                } else {
                    None
                },
            },
        ),
{
    let text = encode_utf8(values[0]@);
    let d = seq![
        digit_value(text[0]),
        digit_value(text[1]),
        digit_value(text[2]),
        digit_value(text[3]),
        digit_value(text[4]),
        digit_value(text[5]),
    ];
    lemma_color_number(text, d);
    lemma_channels(red as int, green as int, blue as int);
}

} // verus!
