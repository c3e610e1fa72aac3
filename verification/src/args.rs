//! The command line: which command was asked for, and with what numbers.

use regex::Regex;
use vstd::prelude::*;
use vstd::string::StrSliceExecFns;

verus! {

broadcast use vstd::string::group_string_axioms;

/// `c` is one of the ten digits `0` to `9`.
pub open spec fn is_digit(c: char) -> bool {
    '0' <= c <= '9'
}

/// `s` is a decimal numeral: one digit or more, and nothing else.
pub open spec fn is_decimal(s: Seq<char>) -> bool {
    &&& s.len() > 0
    &&& forall|i: int| 0 <= i < s.len() ==> is_digit(#[trigger] s[i])
}

/// The number that the digits of `s` write in base ten.
pub open spec fn decimal_value(s: Seq<char>) -> nat
    decreases s.len(),
{
    if s.len() == 0 {
        0
    } else {
        (decimal_value(s.drop_last()) * 10 + (s.last() as nat - '0' as nat)) as nat
    }
}

/// The number that an argument stands for: the one it writes, if it is a
/// decimal numeral of a number that a `usize` holds, and 0 otherwise.
pub open spec fn usize_of_text(s: Seq<char>) -> int {
    if is_decimal(s) && decimal_value(s) <= usize::MAX {
        decimal_value(s) as int
    } else {
        0
    }
}

/// A numeral writes no smaller a number than any of its beginnings.
pub proof fn lemma_decimal_value_prefix(s: Seq<char>, len: int)
    requires
        0 <= len <= s.len(),
        forall|i: int| 0 <= i < s.len() ==> is_digit(#[trigger] s[i]),
    ensures
        decimal_value(s.take(len)) <= decimal_value(s),
    decreases s.len(),
{
    if len == s.len() {
        assert(s.take(len) =~= s);
    } else {
        assert(s.drop_last().take(len) =~= s.take(len));
        lemma_decimal_value_prefix(s.drop_last(), len);
    }
}

/// Whether `text` holds a match of the regular expression `pattern`; `None`
/// where `pattern` is not a regular expression that the `regex` crate
/// compiles.
pub uninterp spec fn regex_match(pattern: Seq<char>, text: Seq<char>) -> Option<bool>;

/// The pattern of the text that is a decimal numeral from its first to its
/// last character: `^\d+$`.
pub open spec fn decimal_pattern() -> Seq<char> {
    seq!['^', '\\', 'd', '+', '$']
}

/// `Regex::new` on `pattern`, then `Regex::is_match` on `text`: whether `text`
/// holds a match of `pattern`, and `None` where `Regex::new` refuses
/// `pattern`. The result is given a name and not spelled out, but for this:
/// `^\d+$` compiles, and it matches every text that is made of one or more
/// of the digits `0` to `9` and of nothing else.
#[verifier::external_body]
fn regex_is_match(pattern: &str, text: &str) -> (matched: Option<bool>)
    ensures
        matched == regex_match(pattern@, text@),
        pattern@ == decimal_pattern() && is_decimal(text@) ==> matched == Some(true),
{
    match Regex::new(pattern) {
        Ok(regex) => Some(regex.is_match(text)),
        Err(_) => None,
    }
}

/// Whether `s` is written as a number: whether `^\d+$` matches it.
pub fn validate_usize(s: &str) -> (valid: bool)
    ensures
        valid == (regex_match(decimal_pattern(), s@) == Some(true)),
        is_decimal(s@) ==> valid,
{
    let pattern = "^\\d+$";
    proof {
        reveal_strlit("^\\d+$");
        assert(pattern@ =~= decimal_pattern());
    }
    match regex_is_match(pattern, s) {
        Some(matched) => matched,
        None => false,
    }
}

/// The number that the decimal numeral `s` writes; 0 where `s` is no decimal
/// numeral or writes a number that a `usize` does not hold.
pub fn parse_decimal(s: &str) -> (value: usize)
    ensures
        value == usize_of_text(s@),
{
    if !s.is_ascii() {
        return 0;
    }
    let n = s.unicode_len();
    let mut value: usize = 0;
    let mut i: usize = 0;
    while i < n
        invariant
            i <= n,
            n == s@.len(),
            s.is_ascii(),
            forall|j: int| 0 <= j < i ==> is_digit(#[trigger] s@[j]),
            value == decimal_value(s@.take(i as int)),
        decreases n - i,
    {
        let byte = s.get_ascii(i);
        if byte < 48 || byte > 57 {
            return 0;
        }
        let digit = (byte - 48) as usize;
        proof {
            let upto = s@.take(i + 1);
            assert(upto.drop_last() =~= s@.take(i as int));
            if is_decimal(s@) {
                lemma_decimal_value_prefix(s@, i + 1);
            }
        }
        match value.checked_mul(10) {
            Some(tens) => match tens.checked_add(digit) {
                Some(next) => {
                    value = next;
                },
                None => {
                    return 0;
                },
            },
            None => {
                return 0;
            },
        }
        i += 1;
    }
    assert(s@.take(n as int) =~= s@);
    value
}

/// The number that an argument stands for; 0 where it is not written as a
/// number that a `usize` holds.
pub fn parse_usize(s: &String) -> (value: usize)
    ensures
        value == usize_of_text(s@),
{
    if validate_usize(s.as_str()) {
        return parse_decimal(s.as_str());
    } else {
        return 0;
    }
}

/// The arguments of a program, the name it was called by first.
pub type ArgsVec = Vec<String>;

/// What the program is asked to do.
#[derive(Copy, Clone, Debug, PartialEq, Eq, Structural)]
pub enum Command {
    /// To say how it is called.
    Help,
    /// To show the parameters of the machine.
    RequestSysParams,
    /// To run a sweep and show the profit of each burst.
    MeasureConcurrencyProfit,
}

/// Where the command stands among the arguments.
pub const ARG_IDX_COMMAND: usize = 1;

/// Where the size of the largest burst stands among the arguments.
pub const ARG_IDX_TASKS_MAX: usize = 2;

/// Where the number of cycles in a task stands among the arguments.
pub const ARG_IDX_N_CYCLES: usize = 3;

/// Where the number of tasks in a series stands among the arguments.
pub const ARG_IDX_SERIES_SIZE: usize = 4;

/// Where the path of the output file stands among the arguments.
pub const ARG_IDX_OUT_FILE_PATH: usize = 5;

/// The command that the arguments name: `s` asks for the parameters of the
/// system, `p` for the profit of concurrency, and anything else, or nothing,
/// for help.
pub open spec fn command_of(args: Seq<Seq<char>>) -> Command {
    if args.len() > ARG_IDX_COMMAND && args[ARG_IDX_COMMAND as int] == seq!['s'] {
        Command::RequestSysParams
    } else if args.len() > ARG_IDX_COMMAND && args[ARG_IDX_COMMAND as int] == seq!['p'] {
        Command::MeasureConcurrencyProfit
    } else {
        Command::Help
    }
}

/// The number that the argument at `index` stands for; 0 where there is no
/// such argument.
pub open spec fn number_at(args: Seq<Seq<char>>, index: int) -> int {
    if 0 <= index < args.len() {
        usize_of_text(args[index])
    } else {
        0
    }
}

/// The path of the output file: the last of exactly six arguments, and empty
/// otherwise.
pub open spec fn out_file_path_of(args: Seq<Seq<char>>) -> Seq<char> {
    if args.len() == ARG_IDX_OUT_FILE_PATH + 1 {
        args[ARG_IDX_OUT_FILE_PATH as int]
    } else {
        Seq::empty()
    }
}

/// What `Args` stands for.
pub struct ArgsView {
    pub command: Command,
    pub tasks_max: int,
    pub n_cycles: int,
    pub series_size: int,
    pub out_file_path: Seq<char>,
}

impl ArgsView {
    /// The arguments before any were read: help is asked for, every number
    /// is 0, and there is no output file.
    pub open spec fn initial() -> ArgsView {
        ArgsView {
            command: Command::Help,
            tasks_max: 0,
            n_cycles: 0,
            series_size: 0,
            out_file_path: Seq::empty(),
        }
    }

    /// What reading `args` makes of `self`. Without arguments nothing
    /// changes. The three numbers are read where there are four arguments or
    /// more; one that is missing or is not written as a number reads 0.
    pub open spec fn parsed(self, args: Seq<Seq<char>>) -> ArgsView {
        if args.len() >= 1 {
            ArgsView {
                command: command_of(args),
                tasks_max: if args.len() >= 4 {
                    number_at(args, ARG_IDX_TASKS_MAX as int)
                } else {
                    self.tasks_max
                },
                n_cycles: if args.len() >= 4 {
                    number_at(args, ARG_IDX_N_CYCLES as int)
                } else {
                    self.n_cycles
                },
                series_size: if args.len() >= 4 {
                    number_at(args, ARG_IDX_SERIES_SIZE as int)
                } else {
                    self.series_size
                },
                out_file_path: out_file_path_of(args),
            }
        } else {
            self
        }
    }

    /// A sweep can be run with these numbers: there is a task to run, it has
    /// a cycle, and a series holds at least one task and no more than all.
    pub open spec fn is_valid(self) -> bool {
        &&& self.tasks_max > 0
        &&& self.n_cycles > 0
        &&& self.series_size > 0
        &&& self.series_size <= self.tasks_max
    }
}

/// The command line as the program understands it.
pub struct Args {
    command: Command,
    tasks_max: usize,
    n_cycles: usize,
    series_size: usize,
    out_file_path: String,
}

impl View for Args {
    type V = ArgsView;

    closed spec fn view(&self) -> ArgsView {
        ArgsView {
            command: self.command,
            tasks_max: self.tasks_max as int,
            n_cycles: self.n_cycles as int,
            series_size: self.series_size as int,
            out_file_path: self.out_file_path@,
        }
    }
}

/// Whether `s` is the one character `c`.
fn is_letter(s: &str, c: char) -> (same: bool)
    ensures
        same == (s@ == seq![c]),
{
    if s.unicode_len() == 1 {
        let first = s.get_char(0);
        assert(first == c ==> s@ =~= seq![c]);
        first == c
    } else {
        false
    }
}

/// The number that the argument at `index` stands for; 0 where there is no
/// such argument.
fn parse_number_at(args: &ArgsVec, index: usize) -> (value: usize)
    ensures
        value == number_at(args.deep_view(), index as int),
{
    if index < args.len() {
        parse_usize(&args[index])
    } else {
        0
    }
}

impl Args {
    /// What the program is asked to do.
    pub fn get_command(&self) -> (command: Command)
        ensures
            command == self@.command,
    {
        self.command
    }

    /// The size of the largest burst of a sweep.
    pub fn get_tasks_max(&self) -> (tasks_max: usize)
        ensures
            tasks_max == self@.tasks_max,
    {
        self.tasks_max
    }

    /// The number of cycles in a task.
    pub fn get_n_cycles(&self) -> (n_cycles: usize)
        ensures
            n_cycles == self@.n_cycles,
    {
        self.n_cycles
    }

    /// The largest number of tasks in a series.
    pub fn get_series_size(&self) -> (series_size: usize)
        ensures
            series_size == self@.series_size,
    {
        self.series_size
    }

    /// The path of the file that the report is written to; empty where none
    /// was asked for.
    pub fn get_out_file_path(&self) -> (out_file_path: String)
        ensures
            out_file_path@ == self@.out_file_path,
    {
        self.out_file_path.clone()
    }

    /// The command that `args` name.
    pub fn parse_command(&self, args: &ArgsVec) -> (command: Command)
        ensures
            command == command_of(args.deep_view()),
    {
        let mut cmd: Command = Command::Help;
        if args.len() > 1 {
            let word = args[ARG_IDX_COMMAND].as_str();
            if is_letter(word, 's') {
                cmd = Command::RequestSysParams;
            } else if is_letter(word, 'p') {
                cmd = Command::MeasureConcurrencyProfit;
            } else {
                cmd = Command::Help;
            }
        }
        cmd
    }

    /// The size of the largest burst, as `args` give it.
    pub fn parse_tasks_max(&self, args: &ArgsVec) -> (tasks_max: usize)
        ensures
            tasks_max == number_at(args.deep_view(), ARG_IDX_TASKS_MAX as int),
    {
        parse_number_at(args, ARG_IDX_TASKS_MAX)
    }

    /// The number of cycles in a task, as `args` give it.
    pub fn parse_n_cycles(&self, args: &ArgsVec) -> (n_cycles: usize)
        ensures
            n_cycles == number_at(args.deep_view(), ARG_IDX_N_CYCLES as int),
    {
        parse_number_at(args, ARG_IDX_N_CYCLES)
    }

    /// The number of tasks in a series, as `args` give it.
    pub fn parse_series_size(&self, args: &ArgsVec) -> (series_size: usize)
        ensures
            series_size == number_at(args.deep_view(), ARG_IDX_SERIES_SIZE as int),
    {
        parse_number_at(args, ARG_IDX_SERIES_SIZE)
    }

    /// The path of the output file, as `args` give it.
    pub fn parse_out_file_path(&self, args: &ArgsVec) -> (out_file_path: String)
        ensures
            out_file_path@ == out_file_path_of(args.deep_view()),
    {
        if args.len() == ARG_IDX_OUT_FILE_PATH + 1 {
            return args[ARG_IDX_OUT_FILE_PATH].clone();
        } else {
            return String::new();
        }
    }

    /// Reads `args` into `self`.
    pub fn parse(self, args: &ArgsVec) -> (parsed: Args)
        ensures
            parsed@ == self@.parsed(args.deep_view()),
    {
        let mut parsed = self;
        if args.len() >= 1 {
            parsed.command = parsed.parse_command(args);
            if args.len() >= 4 {
                parsed.tasks_max = parsed.parse_tasks_max(args);
                parsed.n_cycles = parsed.parse_n_cycles(args);
                parsed.series_size = parsed.parse_series_size(args);
            }
            parsed.out_file_path = parsed.parse_out_file_path(args);
        }
        parsed
    }

    /// Whether a sweep can be run with the numbers that were read.
    pub fn is_valid(&self) -> (valid: bool)
        ensures
            valid == self@.is_valid(),
    {
        self.get_tasks_max() > 0 && self.get_n_cycles() > 0 && self.get_series_size() > 0
            && self.get_series_size() <= self.get_tasks_max()
    }
}

/// What the program is asked to do by `args`.
pub fn accept_args(args: ArgsVec) -> (accepted: Args)
    ensures
        accepted@ == ArgsView::initial().parsed(args.deep_view()),
{
    let initial = Args {
        command: Command::Help,
        tasks_max: 0,
        n_cycles: 0,
        series_size: 0,
        out_file_path: String::new(),
    };
    initial.parse(&args)
}

} // verus!
