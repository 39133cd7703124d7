//! How the user names the target process.

use vstd::prelude::*;
use vstd::string::*;

verus! {

/// The target process, by number or by name.
#[derive(Debug, PartialEq, Eq)]
pub enum ProcessArgs {
    /// The process with this identifier.
    PID(u32),
    /// The first process whose executable name starts with this text.
    PName(String),
}

/// What a [`ProcessArgs`] stands for.
pub enum Target {
    Pid(u32),
    Name(Seq<char>),
}

impl View for ProcessArgs {
    type V = Target;

    open spec fn view(&self) -> Target {
        match self {
            ProcessArgs::PID(p_id) => Target::Pid(*p_id),
            ProcessArgs::PName(p_name) => Target::Name(p_name@),
        }
    }
}

/// `text` without the white space at its start and at its end, as
/// `str::trim` returns it.
pub uninterp spec fn trimmed(text: Seq<char>) -> Seq<char>;

/// `text` in lower case, as `str::to_lowercase` returns it.
pub uninterp spec fn lowercased(text: Seq<char>) -> Seq<char>;

/// `str::trim` returns the slice between the leading and the trailing white
/// space of the text. Which characters count as white space is left to the
/// standard library; the result is only given a name here.
pub assume_specification[ str::trim ](text: &str) -> (inner: &str)
    ensures
        inner@ == trimmed(text@),
;

/// `str::to_lowercase` returns the lower-case form of the text as a new
/// string. The mapping of characters is left to the standard library; the
/// result is only given a name here.
pub assume_specification[ str::to_lowercase ](text: &str) -> (lower: String)
    ensures
        lower@ == lowercased(text@),
;

/// Whether `c` is one of the ten decimal digits.
pub open spec fn is_digit(c: char) -> bool {
    '0' <= c <= '9'
}

/// The number that a digit stands for.
pub open spec fn digit_value(c: char) -> nat {
    (c as u32 - '0' as u32) as nat
}

/// The number that a run of digits stands for, read in base ten.
pub open spec fn decimal_value(digits: Seq<char>) -> nat
    decreases digits.len(),
{
    if digits.len() == 0 {
        0
    } else {
        decimal_value(digits.drop_last()) * 10 + digit_value(digits.last())
    }
}

/// The text after one leading plus sign, where there is one.
pub open spec fn unsigned_part(text: Seq<char>) -> Seq<char> {
    if text.len() > 0 && text[0] == '+' {
        text.subrange(1, text.len() as int)
    } else {
        text
    }
}

/// The process number that a text spells: an optional plus sign, then one
/// or more decimal digits whose value fits in 32 bits. Any other text spells
/// none.
pub open spec fn parsed_pid(text: Seq<char>) -> Option<u32> {
    let digits = unsigned_part(text);
    if digits.len() > 0 && (forall|k: int| 0 <= k < digits.len() ==> is_digit(#[trigger] digits[k]))
        && decimal_value(digits) <= u32::MAX {
        Some(decimal_value(digits) as u32)
    } else {
        None
    }
}

/// The flag that a keyword argument spells, white space and case apart.
pub open spec fn flag_of(keyword: Seq<char>) -> Seq<char> {
    lowercased(trimmed(keyword))
}

/// The target that a flag and its value select. `-p` and `--pid` take a
/// number, `-n` and `--name` take any text; no other flag selects anything.
pub open spec fn selected(flag: Seq<char>, value: Seq<char>) -> Option<Target> {
    if flag == "-p"@ || flag == "--pid"@ {
        match parsed_pid(value) {
            Some(p_id) => Some(Target::Pid(p_id)),
            None => None,
        }
    } else if flag == "-n"@ || flag == "--name"@ {
        Some(Target::Name(value))
    } else {
        None
    }
}

/// A longer run of digits stands for no smaller number than its start.
proof fn lemma_decimal_value_grows(digits: Seq<char>, shorter: int)
    requires
        0 <= shorter <= digits.len(),
    ensures
        decimal_value(digits.take(shorter)) <= decimal_value(digits),
    decreases digits.len(),
{
    if shorter < digits.len() {
        lemma_decimal_value_grows(digits.drop_last(), shorter);
        assert(digits.drop_last().take(shorter) == digits.take(shorter));
    } else {
        assert(digits.take(shorter) == digits);
    }
}

/// Whether two texts hold the same characters.
pub fn same_text(left: &str, right: &str) -> (same: bool)
    ensures
        same == (left@ == right@),
{
    let length: usize = left.unicode_len();
    if length != right.unicode_len() {
        return false;
    }
    let mut at: usize = 0;
    while at < length
        invariant
            at <= length,
            length == left@.len(),
            length == right@.len(),
            forall|k: int| 0 <= k < at ==> left@[k] == right@[k],
        decreases length - at,
    {
        if left.get_char(at) != right.get_char(at) {
            return false;
        }
        at += 1;
    }
    assert(left@ =~= right@);
    true
}

/// Reads a process number: an optional plus sign, then decimal digits.
pub fn parse_pid(text: &str) -> (pid: Option<u32>)
    ensures
        pid == parsed_pid(text@),
{
    let total: usize = text.unicode_len();
    let start: usize = if total > 0 && text.get_char(0) == '+' {
        1
    } else {
        0
    };
    if start == total {
        return None;
    }
    let ghost digits = unsigned_part(text@);
    let mut value: u32 = 0;
    let mut at: usize = start;
    while at < total
        invariant
            start <= at <= total,
            total == text@.len(),
            digits == unsigned_part(text@),
            digits.len() == total - start,
            forall|k: int| 0 <= k < digits.len() ==> digits[k] == text@[k + start],
            forall|k: int| 0 <= k < at - start ==> is_digit(#[trigger] digits[k]),
            value == decimal_value(digits.take(at - start)),
        decreases total - at,
    {
        let c: char = text.get_char(at);
        if c < '0' || c > '9' {
            assert(!is_digit(digits[at - start]));
            return None;
        }
        let digit: u32 = c as u32 - '0' as u32;
        proof {
            let longer = digits.take(at - start + 1);
            assert(longer.drop_last() == digits.take(at - start));
            assert(longer.last() == c);
            lemma_decimal_value_grows(digits, at - start + 1);
        }
        if value > (u32::MAX - digit) / 10 {
            return None;
        }
        value = value * 10 + digit;
        at += 1;
    }
    assert(digits.take(at - start) == digits);
    Some(value)
}

impl ProcessArgs {
    /// The target that a flag and its value select. The flag is compared as
    /// it stands.
    pub fn from_flag(flag: &str, value: &str) -> (target: Result<ProcessArgs, ()>)
        ensures
            match selected(flag@, value@) {
                Some(chosen) => target is Ok && target->Ok_0@ == chosen,
                None => target is Err,
            },
    {
        if same_text(flag, "-p") || same_text(flag, "--pid") {
            match parse_pid(value) {
                Some(p_id) => Ok(ProcessArgs::PID(p_id)),
                None => Err(()),
            }
        } else if same_text(flag, "-n") || same_text(flag, "--name") {
            Ok(ProcessArgs::PName(String::from_str(value)))
        } else {
            Err(())
        }
    }

    /// Reads the target from the arguments that follow the payload path: a
    /// flag and its value, no more and no less. White space around the flag
    /// and its case do not count.
    pub fn parse_into(input_variants: &[String]) -> (target: Result<ProcessArgs, ()>)
        ensures
            input_variants@.len() != 2 ==> target is Err,
            input_variants@.len() == 2 ==> match selected(
                flag_of(input_variants@[0]@),
                input_variants@[1]@,
            ) {
                Some(chosen) => target is Ok && target->Ok_0@ == chosen,
                None => target is Err,
            },
    {
        if input_variants.len() != 2 {
            return Err(());
        }
        let flag: String = input_variants[0].as_str().trim().to_lowercase();
        ProcessArgs::from_flag(flag.as_str(), input_variants[1].as_str())
    }
}

} // verus!
