//! The pieces of JSON text that the telemetry payloads are made of: decimal
//! numbers, temperatures as decimal fractions, and quoted strings.

use vstd::prelude::*;
use vstd::string::*;
use crate::temperature::Temperature;

verus! {

/// The character of a decimal digit.
pub open spec fn digit_char(d: nat) -> char {
    if d == 0 {
        '0'
    } else if d == 1 {
        '1'
    } else if d == 2 {
        '2'
    } else if d == 3 {
        '3'
    } else if d == 4 {
        '4'
    } else if d == 5 {
        '5'
    } else if d == 6 {
        '6'
    } else if d == 7 {
        '7'
    } else if d == 8 {
        '8'
    } else {
        '9'
    }
}

/// The decimal numeral of `n`, without leading zeros.
pub open spec fn decimal_text(n: nat) -> Seq<char>
    decreases n,
{
    if n < 10 {
        seq![digit_char(n)]
    } else {
        decimal_text(n / 10).push(digit_char(n % 10))
    }
}

/// The digits after the decimal point of `sixteenths / 16`, by long
/// division: one digit per place, ending with the place that leaves no
/// remainder. At most `places` digits are written.
pub open spec fn fraction_text(sixteenths: nat, places: nat) -> Seq<char>
    decreases places,
{
    if places == 0 {
        Seq::<char>::empty()
    } else {
        let digit = (sixteenths * 10) / 16;
        let rest = (sixteenths * 10) % 16;
        if rest == 0 {
            seq![digit_char(digit)]
        } else {
            seq![digit_char(digit)] + fraction_text(rest, (places - 1) as nat)
        }
    }
}

/// The number of decimal places that any number of sixteenths fits in.
pub const FRACTION_PLACES: u8 = 4;

/// The size of `sixteenths` without its sign.
pub open spec fn magnitude(sixteenths: int) -> nat {
    if sixteenths < 0 {
        (-sixteenths) as nat
    } else {
        sixteenths as nat
    }
}

/// A temperature of `sixteenths` sixteenths of a degree as a JSON number: a
/// minus sign below zero, the whole degrees, a point, and the exact decimal
/// fraction, of which a lone `0` is written where the temperature is a whole
/// number of degrees.
pub open spec fn temperature_text(sixteenths: int) -> Seq<char> {
    let sign = if sixteenths < 0 {
        seq!['-']
    } else {
        Seq::<char>::empty()
    };
    sign + decimal_text(magnitude(sixteenths) / 16) + seq!['.'] + fraction_text(
        magnitude(sixteenths) % 16,
        FRACTION_PLACES as nat,
    )
}

/// The character of a hexadecimal digit, in lower case.
pub open spec fn hex_digit_char(d: nat) -> char {
    if d < 10 {
        digit_char(d)
    } else if d == 10 {
        'a'
    } else if d == 11 {
        'b'
    } else if d == 12 {
        'c'
    } else if d == 13 {
        'd'
    } else if d == 14 {
        'e'
    } else {
        'f'
    }
}

/// What stands for one character inside a JSON string: the quotation mark,
/// the backslash and the control characters below U+0020 are escaped, the
/// five that have a short escape with it and the others as `\u00` and two
/// hexadecimal digits; every other character stands for itself.
pub open spec fn escaped_char(c: char) -> Seq<char> {
    if c == '"' {
        seq!['\\', '"']
    } else if c == '\\' {
        seq!['\\', '\\']
    } else if c == '\u{8}' {
        seq!['\\', 'b']
    } else if c == '\t' {
        seq!['\\', 't']
    } else if c == '\n' {
        seq!['\\', 'n']
    } else if c == '\u{c}' {
        seq!['\\', 'f']
    } else if c == '\r' {
        seq!['\\', 'r']
    } else if (c as u32) < 0x20 {
        seq![
            '\\',
            'u',
            '0',
            '0',
            hex_digit_char((c as u32 / 16) as nat),
            hex_digit_char((c as u32 % 16) as nat),
        ]
    } else {
        seq![c]
    }
}

/// The characters of `s`, each as it stands inside a JSON string.
pub open spec fn escaped_text(s: Seq<char>) -> Seq<char>
    decreases s.len(),
{
    if s.len() == 0 {
        Seq::<char>::empty()
    } else {
        escaped_text(s.drop_last()) + escaped_char(s.last())
    }
}

/// `s` as a JSON string: its escaped characters between quotation marks.
pub open spec fn quoted_text(s: Seq<char>) -> Seq<char> {
    seq!['"'] + escaped_text(s) + seq!['"']
}

/// Renders `s` as a JSON string with `serde_json`: a `Value::String` of `s`
/// is formatted by the `Display` of `serde_json::Value`. The contract is
/// taken from that crate's serializer, which writes a quotation mark, the
/// string with the escapes of its `ESCAPE` table, and a quotation mark; it
/// is believed, not proved.
#[verifier::external_body]
fn quote_with_serde(s: &str) -> (text: String)
    ensures
        text@ == quoted_text(s@),
{
    serde_json::Value::String(s.to_owned()).to_string()
}

/// Appends `s` as a JSON string to `out`.
pub fn append_quoted(out: &mut String, s: &str)
    ensures
        final(out)@ == old(out)@ + quoted_text(s@),
{
    let text = quote_with_serde(s);
    out.append(text.as_str());
}

/// The text of one decimal digit.
fn digit_str(d: u8) -> (s: &'static str)
    requires
        d < 10,
    ensures
        s@ == seq![digit_char(d as nat)],
{
    proof {
        reveal_strlit("0");
        reveal_strlit("1");
        reveal_strlit("2");
        reveal_strlit("3");
        reveal_strlit("4");
        reveal_strlit("5");
        reveal_strlit("6");
        reveal_strlit("7");
        reveal_strlit("8");
        reveal_strlit("9");
    }
    let s = if d == 0 {
        "0"
    } else if d == 1 {
        "1"
    } else if d == 2 {
        "2"
    } else if d == 3 {
        "3"
    } else if d == 4 {
        "4"
    } else if d == 5 {
        "5"
    } else if d == 6 {
        "6"
    } else if d == 7 {
        "7"
    } else if d == 8 {
        "8"
    } else {
        "9"
    };
    assert(s@ =~= seq![digit_char(d as nat)]);
    s
}

/// Appends the decimal numeral of `n` to `out`.
pub fn append_decimal(out: &mut String, n: u64)
    ensures
        final(out)@ == old(out)@ + decimal_text(n as nat),
    decreases n,
{
    if n >= 10 {
        append_decimal(out, n / 10);
    }
    out.append(digit_str((n % 10) as u8));
    proof {
        assert(out@ =~= old(out)@ + decimal_text(n as nat));
    }
}

/// Appends the digits after the decimal point of `sixteenths / 16` to `out`.
fn append_fraction(out: &mut String, sixteenths: u8)
    requires
        sixteenths < 16,
    ensures
        final(out)@ == old(out)@ + fraction_text(sixteenths as nat, FRACTION_PLACES as nat),
{
    let mut rest: u8 = sixteenths;
    let mut places: u8 = FRACTION_PLACES;
    let ghost written = Seq::<char>::empty();
    loop
        invariant
            rest < 16,
            0 < places <= 4,
            out@ == old(out)@ + written,
            written + fraction_text(rest as nat, places as nat) == fraction_text(
                sixteenths as nat,
                FRACTION_PLACES as nat,
            ),
            divides_out_within(rest as nat, places as nat),
        decreases places,
    {
        let digit: u8 = (rest * 10) / 16;
        let next: u8 = (rest * 10) % 16;
        out.append(digit_str(digit));
        proof {
            if next == 0 {
                assert(out@ =~= old(out)@ + (written + fraction_text(rest as nat, places as nat)));
            } else {
                assert(written.push(digit_char(digit as nat)) + fraction_text(
                    next as nat,
                    (places - 1) as nat,
                ) =~= written + fraction_text(rest as nat, places as nat));
                assert(out@ =~= old(out)@ + written.push(digit_char(digit as nat)));
                written = written.push(digit_char(digit as nat));
            }
        }
        if next == 0 {
            return ;
        }
        rest = next;
        places = places - 1;
    }
}

/// Whether the long division of `rest / 16` ends within `places` places:
/// each place takes one factor of two out of the sixteen.
spec fn divides_out_within(rest: nat, places: nat) -> bool {
    if places >= 4 {
        true
    } else if places == 3 {
        rest % 2 == 0
    } else if places == 2 {
        rest % 4 == 0
    } else if places == 1 {
        rest % 8 == 0
    } else {
        rest % 16 == 0
    }
}

/// Appends a temperature as a JSON number to `out`.
pub fn append_temperature(out: &mut String, t: Temperature)
    ensures
        final(out)@ == old(out)@ + temperature_text(t.sixteenths()),
{
    if t.is_negative() {
        out.append("-");
        proof {
            reveal_strlit("-");
            assert("-"@ =~= seq!['-']);
        }
    }
    append_decimal(out, t.whole_degrees() as u64);
    out.append(".");
    proof {
        reveal_strlit(".");
        assert("."@ =~= seq!['.']);
    }
    append_fraction(out, t.fraction_sixteenths());
    proof {
        assert(out@ =~= old(out)@ + temperature_text(t.sixteenths()));
    }
}

} // verus!
