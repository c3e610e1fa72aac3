//! Numbers as text: decimal numerals, right-aligned columns, digits in groups
//! of three.

use thousands::Separable;
use vstd::prelude::*;
use vstd::string::StrSliceExecFns;
use vstd::string::StringExecFns;

verus! {

broadcast use vstd::string::group_string_axioms;

/// The character that writes the digit `d`.
pub open spec fn digit_char(d: nat) -> char {
    seq!['0', '1', '2', '3', '4', '5', '6', '7', '8', '9'][d as int]
}

/// The decimal numeral of `n`: no sign, and no leading zero but for 0 itself.
pub open spec fn decimal_text(n: nat) -> Seq<char>
    decreases n,
{
    if n < 10 {
        seq![digit_char(n)]
    } else {
        decimal_text(n / 10).push(digit_char(n % 10))
    }
}

/// The decimal numeral of `n`, with a minus sign before it where `n` is
/// negative.
pub open spec fn int_text(n: int) -> Seq<char> {
    if n < 0 {
        seq!['-'] + decimal_text((-n) as nat)
    } else {
        decimal_text(n as nat)
    }
}

/// `count` spaces.
pub open spec fn spaces(count: nat) -> Seq<char> {
    Seq::new(count, |i: int| ' ')
}

/// `text` at the right of a column of `width` characters: with as many spaces
/// before it as it is shorter than `width`.
pub open spec fn right_aligned(text: Seq<char>, width: nat) -> Seq<char> {
    if text.len() >= width {
        text
    } else {
        spaces((width - text.len()) as nat) + text
    }
}

/// The three digits of a number below 1000, leading zeros included.
pub open spec fn three_digits(n: nat) -> Seq<char> {
    seq![digit_char(n / 100), digit_char(n / 10 % 10), digit_char(n % 10)]
}

/// The decimal numeral of `n` with a comma before every group of three digits,
/// counted from the right.
pub open spec fn grouped_text(n: nat) -> Seq<char>
    decreases n,
{
    if n < 1000 {
        decimal_text(n)
    } else {
        grouped_text(n / 1000) + seq![','] + three_digits(n % 1000)
    }
}

/// The text of one digit.
fn digit_str(d: u8) -> (text: &'static str)
    requires
        d < 10,
    ensures
        text@ == seq![digit_char(d as nat)],
{
    proof {
        reveal_strlit("0");
        reveal_strlit("1");
        reveal_strlit("2");
        reveal_strlit("3");
        reveal_strlit("4");
        reveal_strlit("5");
        reveal_strlit("6");
        reveal_strlit("7");
        reveal_strlit("8");
        reveal_strlit("9");
    }
    let text = match d {
        0 => "0",
        1 => "1",
        2 => "2",
        3 => "3",
        4 => "4",
        5 => "5",
        6 => "6",
        7 => "7",
        8 => "8",
        _ => "9",
    };
    text
}

/// The decimal numeral of `n`.
pub fn format_unsigned(n: u128) -> (text: String)
    ensures
        text@ == decimal_text(n as nat),
    decreases n,
{
    if n < 10 {
        String::from_str(digit_str(n as u8))
    } else {
        let mut text = format_unsigned(n / 10);
        text.append(digit_str((n % 10) as u8));
        text
    }
}

/// The decimal numeral of `n`, with its sign where it is negative.
pub fn format_signed(n: i128) -> (text: String)
    ensures
        text@ == int_text(n as int),
{
    if n < 0 {
        let magnitude = (-(n + 1)) as u128 + 1;
        let digits = format_unsigned(magnitude);
        let mut text = String::from_str("-");
        proof {
            reveal_strlit("-");
        }
        text.append(digits.as_str());
        text
    } else {
        format_unsigned(n as u128)
    }
}

/// `text` at the right of a column of `width` characters.
pub fn pad_left(text: &str, width: usize) -> (padded: String)
    ensures
        padded@ == right_aligned(text@, width as nat),
{
    let len = text.unicode_len();
    let mut padded = String::new();
    let mut column: usize = len;
    proof {
        reveal_strlit(" ");
    }
    while column < width
        invariant
            len <= column,
            column <= width || column == len,
            len == text@.len(),
            padded@ == spaces((column - len) as nat),
            " "@.len() == 1,
            " "@[0] == ' ',
        decreases width - column,
    {
        padded.append(" ");
        column += 1;
    }
    padded.append(text);
    padded
}

/// `Separable::separate_with_commas` of the `thousands` crate, on a `usize`:
/// the decimal numeral of `n` with a comma before every group of three
/// digits, counted from the right.
#[verifier::external_body]
fn separate_with_commas(n: usize) -> (text: String)
    ensures
        text@ == grouped_text(n as nat),
{
    n.separate_with_commas()
}

/// The rule above and below the table of system parameters.
pub open spec fn sysparams_rule() -> Seq<char> {
    "====================================\n"@
}

/// The line of the table of system parameters that gives the number of
/// processors.
pub open spec fn cpus_line(n_cpus: nat) -> Seq<char> {
    "CPUs available "@ + right_aligned(decimal_text(n_cpus), 21) + "\n"@
}

/// The line of the table of system parameters that gives the number of
/// cycles that the machine runs in a second.
pub open spec fn cycles_per_sec_line(cycles_per_sec: nat) -> Seq<char> {
    "Cycles per second "@ + right_aligned(grouped_text(cycles_per_sec), 18) + "\n"@
}

/// The table of system parameters.
pub open spec fn sysparams_text(n_cpus: nat, cycles_per_sec: nat) -> Seq<char> {
    sysparams_rule() + "System parameter               Value\n"@ + sysparams_rule() + cpus_line(
        n_cpus,
    ) + cycles_per_sec_line(cycles_per_sec) + sysparams_rule()
}

/// The line that gives the number of processors.
pub fn format_cpus(n_cpus: usize) -> (line: String)
    ensures
        line@ == cpus_line(n_cpus as nat),
{
    let number = format_unsigned(n_cpus as u128);
    let column = pad_left(number.as_str(), 21);
    let mut line = String::from_str("CPUs available ");
    line.append(column.as_str());
    line.append("\n");
    line
}

/// The line that gives the number of cycles in a second.
pub fn format_cycles_per_sec(cycles_per_sec: usize) -> (line: String)
    ensures
        line@ == cycles_per_sec_line(cycles_per_sec as nat),
{
    let number = separate_with_commas(cycles_per_sec);
    let column = pad_left(number.as_str(), 18);
    let mut line = String::from_str("Cycles per second ");
    line.append(column.as_str());
    line.append("\n");
    line
}

/// The table of system parameters of a machine with `n_cpus` processors that
/// runs `cycles_per_sec` cycles in a second.
pub fn format_sysparams(n_cpus: usize, cycles_per_sec: usize) -> (table: String)
    ensures
        table@ == sysparams_text(n_cpus as nat, cycles_per_sec as nat),
{
    let mut table = String::from_str("====================================\n");
    table.append("System parameter               Value\n");
    table.append("====================================\n");
    table.append(format_cpus(n_cpus).as_str());
    table.append(format_cycles_per_sec(cycles_per_sec).as_str());
    table.append("====================================\n");
    table
}

} // verus!
