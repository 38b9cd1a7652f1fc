//! The classified failures of one worker invocation.
use vstd::prelude::*;

verus! {

/// A failure that ends an invocation. Malformed stdout lines and refused
/// progress events are not among them: they are only logged.
#[derive(Debug)]
pub enum ConversionError {
    /// No runtime was found and no fallback applies.
    RuntimeMissing,
    /// The worker's entry point is not on disk.
    EntryPointMissing,
    /// The operating system refused to create the process.
    SpawnFailed { reason: String },
    /// The pipe broke before the whole request was written.
    StdinWrite { reason: String },
    /// The worker exited with a status other than success; `code` is -1 when
    /// the process ended without an exit code.
    WorkerExitFailure { code: i32, last_line: String },
    /// The worker exited with success but never sent a completion document.
    ProtocolViolation,
}

/// The decimal digits of a natural number.
pub open spec fn decimal_digits(n: nat) -> Seq<char>
    decreases n,
{
    if n < 10 {
        seq!['0', '1', '2', '3', '4', '5', '6', '7', '8', '9'].subrange(n as int, n + 1 as int)
    } else {
        decimal_digits(n / 10) + seq!['0', '1', '2', '3', '4', '5', '6', '7', '8', '9'].subrange(
            (n % 10) as int,
            (n % 10) + 1 as int,
        )
    }
}

/// An integer written in decimal, with a minus sign when negative.
pub open spec fn decimal(n: int) -> Seq<char> {
    if n < 0 {
        seq!['-'] + decimal_digits((-n) as nat)
    } else {
        decimal_digits(n as nat)
    }
}

/// Appends the decimal digits of a natural number.
fn push_digits(n: u64, out: &mut String)
    ensures
        final(out)@ == old(out)@ + decimal_digits(n as nat),
    decreases n,
{
    let table = "0123456789";
    proof {
        reveal_strlit("0123456789");
    }
    assert(table@ =~= seq!['0', '1', '2', '3', '4', '5', '6', '7', '8', '9']);
    if n >= 10 {
        push_digits(n / 10, out);
    }
    let d = (n % 10) as usize;
    out.append(table.substring_char(d, d + 1));
    assert(out@ =~= old(out)@ + decimal_digits(n as nat));
}

/// Writes an integer in decimal.
pub fn write_decimal(n: i32) -> (r: String)
    ensures
        r@ == decimal(n as int),
{
    let mut r = String::new();
    if n < 0 {
        r.append("-");
        proof {
            reveal_strlit("-");
        }
        let magnitude: u64 = (0i64 - n as i64) as u64;
        push_digits(magnitude, &mut r);
        assert(r@ =~= decimal(n as int));
    } else {
        push_digits(n as u64, &mut r);
        assert(r@ =~= decimal(n as int));
    }
    r
}

impl ConversionError {
    /// The text shown to the user for this failure.
    pub fn message(&self) -> (r: String)
        ensures
            self is RuntimeMissing ==> r@ == "Embedded Python runtime missing. Place it under src-tauri/bin/python"@,
            self is EntryPointMissing ==> r@ == "Unable to locate backend/main.py"@,
            self is ProtocolViolation ==> r@ == "Python backend did not return a final status"@,
            self matches ConversionError::SpawnFailed { reason } ==> r@ == "Failed to spawn Python process: "@ + reason@,
            self matches ConversionError::StdinWrite { reason } ==> r@ == "Failed to write to stdin: "@ + reason@,
            match self {
                ConversionError::WorkerExitFailure { code, last_line } => r@ == if last_line@.len()
                    == 0 {
                    "Python process failed with exit code "@ + decimal(*code as int)
                } else {
                    "Python process failed with exit code "@ + decimal(*code as int) + ": "@
                        + last_line@
                },
                _ => true,
            },
    {
        match self {
            ConversionError::RuntimeMissing => String::from_str(
                "Embedded Python runtime missing. Place it under src-tauri/bin/python",
            ),
            ConversionError::EntryPointMissing => String::from_str("Unable to locate backend/main.py"),
            ConversionError::ProtocolViolation => String::from_str(
                "Python backend did not return a final status",
            ),
            ConversionError::SpawnFailed { reason } => {
                let mut r = String::from_str("Failed to spawn Python process: ");
                r.append(reason.as_str());
                r
            },
            ConversionError::StdinWrite { reason } => {
                let mut r = String::from_str("Failed to write to stdin: ");
                r.append(reason.as_str());
                r
            },
            ConversionError::WorkerExitFailure { code, last_line } => {
                let mut r = String::from_str("Python process failed with exit code ");
                let digits = write_decimal(*code);
                r.append(digits.as_str());
                if !last_line.as_str().is_empty() {
                    r.append(": ");
                    r.append(last_line.as_str());
                }
                r
            },
        }
    }
}

} // verus!
