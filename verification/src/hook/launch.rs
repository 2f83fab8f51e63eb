//! What the hook process is started with: the server's process id and the path of
//! the hook library, both from its environment.

use vstd::prelude::*;
use vstd::string::StringExecFns;

verus! {

/// The variable that holds the server's process id.
pub const PID_VARIABLE: &'static str = "WLW_PID";

/// The variable that holds the path of the hook library.
pub const HOOK_DLL_VARIABLE: &'static str = "WLW_HOOK_DLL";

/// Why the hook process could not start, or why it ended.
#[derive(Clone, Copy, Debug, PartialEq, Eq, Structural)]
pub enum MainError {
    PidIsMissing,
    PidIsInvalid,
    PidIs0,
    HookDllIsMissing,
    DllLoadError,
    DllHookError,
    EventLoop,
}

pub open spec fn is_digit(c: char) -> bool {
    '0' <= c <= '9'
}

/// The number that a run of decimal digits stands for.
pub open spec fn digits_value(digits: Seq<char>) -> nat
    decreases digits.len(),
{
    if digits.len() == 0 {
        0
    } else {
        digits_value(digits.drop_last()) * 10 + (digits.last() as u32 - '0' as u32) as nat
    }
}

/// Whether a text is made of decimal digits, and of at least one.
pub open spec fn is_number(digits: Seq<char>) -> bool {
    digits.len() > 0 && forall|i: int| 0 <= i < digits.len() ==> is_digit(#[trigger] digits[i])
}

/// A text without the plus sign that it may start with.
pub open spec fn unsigned_part(text: Seq<char>) -> Seq<char> {
    if text.len() > 0 && text[0] == '+' {
        text.drop_first()
    } else {
        text
    }
}

/// The number that a text stands for: decimal digits, at least one, after at most one
/// plus sign, and no more than 32 bits can hold.
pub open spec fn parsed_u32(text: Seq<char>) -> Option<u32> {
    if is_number(unsigned_part(text)) && digits_value(unsigned_part(text)) <= u32::MAX {
        Some(digits_value(unsigned_part(text)) as u32)
    } else {
        None
    }
}

/// Calls `str::parse::<u32>`, which takes decimal digits after an optional plus sign
/// and refuses an empty text, any other character, and a number over 32 bits.
#[verifier::external_body]
fn parse_u32(text: &str) -> (number: Option<u32>)
    ensures
        number == parsed_u32(text@),
{
    text.parse::<u32>().ok()
}

/// The process id that the variable's value stands for.
pub open spec fn server_pid_of(value: Option<Seq<char>>) -> Result<u32, MainError> {
    match value {
        None => Err(MainError::PidIsMissing),
        Some(text) => match parsed_u32(text) {
            None => Err(MainError::PidIsInvalid),
            Some(pid) => if pid == 0 {
                Err(MainError::PidIs0)
            } else {
                Ok(pid)
            },
        },
    }
}

/// The server's process id from the value of its variable: the variable has to be
/// set, to a number, and not to zero.
pub fn server_pid(value: Option<&str>) -> (pid: Result<u32, MainError>)
    ensures
        pid == server_pid_of(
            match value {
                Some(text) => Some(text@),
                None => None,
            },
        ),
        pid matches Ok(found) ==> found != 0,
{
    match value {
        None => Err(MainError::PidIsMissing),
        Some(text) => match parse_u32(text) {
            None => Err(MainError::PidIsInvalid),
            Some(pid) => {
                if pid == 0 {
                    Err(MainError::PidIs0)
                } else {
                    Ok(pid)
                }
            },
        },
    }
}

/// The path of the hook library from the value of its variable, which has to be set.
pub fn hook_dll(value: Option<String>) -> (path: Result<String, MainError>)
    ensures
        match value {
            Some(given) => path matches Ok(found) && found@ == given@,
            None => path == Err::<String, MainError>(MainError::HookDllIsMissing),
        },
{
    match value {
        Some(given) => Ok(given),
        None => Err(MainError::HookDllIsMissing),
    }
}

impl MainError {
    /// What is shown of the error, before the text of the system error where one follows.
    pub open spec fn report(self, inner: Seq<char>) -> Seq<char> {
        match self {
            MainError::PidIsMissing => "Must set WLW_PID"@,
            MainError::PidIsInvalid => "WLW_PID is not a valid number"@,
            MainError::PidIs0 => "WLW_PID cannot be 0"@,
            MainError::HookDllIsMissing => "WLW_HOOK_DLL must be set"@,
            MainError::DllLoadError => "DLL load error: "@ + inner,
            MainError::DllHookError => "Windows hook error: "@ + inner,
            MainError::EventLoop => "Error in Windows event loop: "@ + inner,
        }
    }

    /// Shows the error. `inner` is the text of the system error behind it, and is not
    /// looked at where there is none.
    pub fn to_string(&self, inner: &str) -> (text: String)
        ensures
            text@ == self.report(inner@),
    {
        match self {
            MainError::PidIsMissing => String::from_str("Must set WLW_PID"),
            MainError::PidIsInvalid => String::from_str("WLW_PID is not a valid number"),
            MainError::PidIs0 => String::from_str("WLW_PID cannot be 0"),
            MainError::HookDllIsMissing => String::from_str("WLW_HOOK_DLL must be set"),
            MainError::DllLoadError => {
                let mut text = String::from_str("DLL load error: ");
                text.append(inner);
                text
            },
            MainError::DllHookError => {
                let mut text = String::from_str("Windows hook error: ");
                text.append(inner);
                text
            },
            MainError::EventLoop => {
                let mut text = String::from_str("Error in Windows event loop: ");
                text.append(inner);
                text
            },
        }
    }
}

} // verus!
