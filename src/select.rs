use vstd::prelude::*;

verus! {

/// The two ways startup can fail, and a failed read of the selection.
#[derive(Clone, Copy, Debug, PartialEq, Eq, Structural)]
pub enum Mouse2JoyError {
    /// No input device with relative-motion capability could be opened.
    NoMouseError,
    /// A line of input could not be read.
    FailedToReadInput,
    /// The virtual joystick could not be created.
    OutputDeviceCreationError,
}

impl Mouse2JoyError {
    /// A sentence for the user that says what went wrong.
    pub fn message(&self) -> (r: &'static str) {
        match self {
            Mouse2JoyError::NoMouseError => "Failed to find a mouse device. Make sure you are running the application with root priviledges.",
            Mouse2JoyError::FailedToReadInput => "Failed to read a mouse input",
            Mouse2JoyError::OutputDeviceCreationError => "Failed to create the virtual joystick",
        }
    }
}

/// How the input device is chosen among the eligible ones.
#[derive(Clone, Copy, Debug, PartialEq, Eq, Structural)]
pub enum SelectionPlan {
    /// Exactly one device: it is taken without asking.
    Only,
    /// Several devices: the user picks one by its 1-based number.
    Prompt,
}

/// Decides how to choose among `count` eligible devices.
pub fn plan_selection(count: usize) -> (r: Result<SelectionPlan, Mouse2JoyError>)
    ensures
        count == 0 <==> r == Err::<SelectionPlan, Mouse2JoyError>(Mouse2JoyError::NoMouseError),
        count == 1 <==> r == Ok::<SelectionPlan, Mouse2JoyError>(SelectionPlan::Only),
        count > 1 <==> r == Ok::<SelectionPlan, Mouse2JoyError>(SelectionPlan::Prompt),
{
    if count == 0 {
        Err(Mouse2JoyError::NoMouseError)
    } else if count == 1 {
        Ok(SelectionPlan::Only)
    } else {
        Ok(SelectionPlan::Prompt)
    }
}

/// Why a line typed at the selection prompt was not accepted.
#[derive(Clone, Copy, Debug, PartialEq, Eq, Structural)]
pub enum RetryReason {
    /// The line is not a non-negative decimal integer that fits in `usize`.
    NotANumber,
    /// The number is outside the range offered.
    OutOfRange(usize),
}

/// The line with leading and trailing white space removed.
pub uninterp spec fn trimmed(s: Seq<char>) -> Seq<char>;

/// Relies on `str::trim`: leading and trailing white space removed; the
/// result depends on the characters alone.
#[verifier::external_body]
fn trim_line(s: &str) -> (r: &str)
    ensures
        r@ == trimmed(s@),
{
    s.trim()
}

pub open spec fn is_digit(c: char) -> bool {
    '0' <= c && c <= '9'
}

/// The value of a string of decimal digits.
pub open spec fn digits_value(s: Seq<char>) -> nat
    decreases s.len(),
{
    if s.len() == 0 {
        0
    } else {
        digits_value(s.drop_last()) * 10 + ((s.last() as nat) - ('0' as nat)) as nat
    }
}

/// What `usize`'s decimal parser returns: an optional `+`, then one or more
/// decimal digits whose value fits in `usize`.
pub open spec fn parsed_usize(s: Seq<char>) -> Option<usize> {
    let d = if s.len() > 0 && s[0] == '+' {
        s.subrange(1, s.len() as int)
    } else {
        s
    };
    if d.len() > 0 && (forall|i: int| 0 <= i < d.len() ==> is_digit(#[trigger] d[i]))
        && digits_value(d) <= usize::MAX {
        Some(digits_value(d) as usize)
    } else {
        None
    }
}

/// Relies on `<usize as FromStr>::from_str` in radix ten: an optional `+`
/// and at least one digit, failing on anything else and on overflow.
#[verifier::external_body]
fn parse_usize(s: &str) -> (r: Option<usize>)
    ensures
        r == parsed_usize(s@),
{
    s.parse::<usize>().ok()
}

/// Checks an already trimmed line against the range `[min, max]`.
pub fn validate_choice(line: &str, min: usize, max: usize) -> (r: Result<usize, RetryReason>)
    ensures
        r == match parsed_usize(line@) {
            Some(n) => if min <= n <= max {
                Ok::<usize, RetryReason>(n)
            } else {
                Err(RetryReason::OutOfRange(n))
            },
            None => Err(RetryReason::NotANumber),
        },
{
    match parse_usize(line) {
        Some(n) => if min <= n && n <= max {
            Ok(n)
        } else {
            Err(RetryReason::OutOfRange(n))
        },
        None => Err(RetryReason::NotANumber),
    }
}

/// Reads a line typed at the selection prompt: surrounding white space is
/// ignored, and the number must lie in `[min, max]`.
pub fn parse_and_validate(input: &str, min: usize, max: usize) -> (r: Result<usize, RetryReason>)
    ensures
        r == match parsed_usize(trimmed(input@)) {
            Some(n) => if min <= n <= max {
                Ok::<usize, RetryReason>(n)
            } else {
                Err(RetryReason::OutOfRange(n))
            },
            None => Err(RetryReason::NotANumber),
        },
{
    let t = trim_line(input);
    validate_choice(t, min, max)
}

/// The indices, in enumeration order, of the devices to release once the
/// device numbered `chosen` (1-based) has been taken out of `count`.
pub fn devices_to_release(count: usize, chosen: usize) -> (r: Vec<usize>)
    requires
        1 <= chosen <= count,
    ensures
        r@.len() == count - 1,
        forall|i: int| 0 <= i < chosen - 1 ==> r@[i] == i,
        forall|i: int| chosen - 1 <= i < count - 1 ==> r@[i] == i + 1,
{
    let mut out: Vec<usize> = Vec::new();
    let mut i: usize = 0;
    while i < count
        invariant
            i <= count,
            1 <= chosen <= count,
            out@.len() == if i < chosen { i as int } else { i - 1 },
            forall|k: int| 0 <= k < out@.len() && k < chosen - 1 ==> out@[k] == k,
            forall|k: int| chosen - 1 <= k < out@.len() ==> out@[k] == k + 1,
        decreases count - i,
    {
        if i + 1 != chosen {
            out.push(i);
        }
        i = i + 1;
    }
    out
}

} // verus!
