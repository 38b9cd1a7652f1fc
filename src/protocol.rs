//! The stdout side of the protocol: JSON Lines framing, the classification
//! of each line, and the reconciliation of the last completion document with
//! the worker's exit status.
use vstd::prelude::*;
use crate::error::ConversionError;
use crate::json::{as_strings, as_text, json_parse, json_view, member, model_member, model_strings, model_text, parse_document, JsonModel};
use crate::payload::{decode_completion, completion_model, opt_result, BackendResult, ResultModel};

verus! {

/// The characters with the Unicode White_Space property.
pub open spec fn is_white_space(c: char) -> bool {
    let n = c as u32;
    ||| 9 <= n <= 13
    ||| n == 32
    ||| n == 0x85
    ||| n == 0xa0
    ||| n == 0x1680
    ||| 0x2000 <= n <= 0x200a
    ||| n == 0x2028
    ||| n == 0x2029
    ||| n == 0x202f
    ||| n == 0x205f
    ||| n == 0x3000
}

/// A text without its leading white space.
pub open spec fn trim_start(s: Seq<char>) -> Seq<char>
    decreases s.len(),
{
    if s.len() > 0 && is_white_space(s[0]) {
        trim_start(s.skip(1))
    } else {
        s
    }
}

/// A text without its trailing white space.
pub open spec fn trim_end(s: Seq<char>) -> Seq<char>
    decreases s.len(),
{
    if s.len() > 0 && is_white_space(s.last()) {
        trim_end(s.drop_last())
    } else {
        s
    }
}

/// A text without its leading and trailing white space.
pub open spec fn trimmed(s: Seq<char>) -> Seq<char> {
    trim_end(trim_start(s))
}

/// Relies on str::trim: drops leading and trailing characters that
/// `char::is_whitespace` (the White_Space property) accepts.
#[verifier::external_body]
fn trim_text(s: &str) -> (r: String)
    ensures
        r@ == trimmed(s@),
{
    s.trim().to_string()
}

pub open spec fn key_event() -> Seq<char> {
    seq!['e', 'v', 'e', 'n', 't']
}

pub open spec fn key_status() -> Seq<char> {
    seq!['s', 't', 'a', 't', 'u', 's']
}

pub open spec fn key_message() -> Seq<char> {
    seq!['m', 'e', 's', 's', 'a', 'g', 'e']
}

pub open spec fn key_outputs() -> Seq<char> {
    seq!['o', 'u', 't', 'p', 'u', 't', 's']
}

/// The text of a string member of a document.
pub open spec fn member_text(v: JsonModel, key: Seq<char>) -> Option<Seq<char>> {
    match model_member(v, key) {
        Some(m) => model_text(m),
        None => None,
    }
}

/// The texts of a member of a document that is an array of strings.
pub open spec fn member_strings(v: JsonModel, key: Seq<char>) -> Option<Seq<Seq<char>>> {
    match model_member(v, key) {
        Some(m) => model_strings(m),
        None => None,
    }
}

/// The terminal result that a document carries, if it is a completion
/// document.
pub open spec fn document_completion(v: JsonModel) -> Option<ResultModel> {
    completion_model(
        member_text(v, key_event()),
        member_text(v, key_status()),
        member_text(v, key_message()),
        member_strings(v, key_outputs()),
    )
}

/// A line that is empty once trimmed.
pub open spec fn is_blank(raw: Seq<char>) -> bool {
    trimmed(raw).len() == 0
}

/// The document that a line holds, if it is not blank and parses.
pub open spec fn line_document(raw: Seq<char>) -> Option<JsonModel> {
    if is_blank(raw) {
        None
    } else {
        json_parse(trimmed(raw))
    }
}

/// A line that is not blank and does not parse as one JSON document.
pub open spec fn is_malformed(raw: Seq<char>) -> bool {
    !is_blank(raw) && line_document(raw).is_none()
}

/// The terminal result that a line carries, if any.
pub open spec fn line_completion(raw: Seq<char>) -> Option<ResultModel> {
    match line_document(raw) {
        Some(v) => document_completion(v),
        None => None,
    }
}

/// What the relay knows after some lines: the last terminal result seen and
/// the last non-blank line, trimmed.
pub struct RelayModel {
    pub result: Option<ResultModel>,
    pub last_line: Seq<char>,
}

pub open spec fn relay_start() -> RelayModel {
    RelayModel { result: None, last_line: Seq::empty() }
}

/// The effect of one stdout line: blank lines change nothing; any other line
/// becomes the last line, and a completion document replaces the result.
pub open spec fn relay_step(m: RelayModel, raw: Seq<char>) -> RelayModel {
    if is_blank(raw) {
        m
    } else {
        RelayModel {
            result: match line_completion(raw) {
                Some(c) => Some(c),
                None => m.result,
            },
            last_line: trimmed(raw),
        }
    }
}

/// The relay's state after a sequence of stdout lines, in order.
pub open spec fn relay_run(lines: Seq<Seq<char>>) -> RelayModel
    decreases lines.len(),
{
    if lines.len() == 0 {
        relay_start()
    } else {
        relay_step(relay_run(lines.drop_last()), lines.last())
    }
}

/// How an invocation ends, as the stdout lines and the exit code decide it.
pub enum Outcome {
    Completed(ResultModel),
    WorkerExitFailure { code: i32, last_line: Seq<char> },
    ProtocolViolation,
    Other,
}

/// The outcome for a relay state and an exit code (none when the process
/// ended without one): a failing exit wins over any result; a successful
/// exit needs a result.
pub open spec fn settle(m: RelayModel, exit_code: Option<i32>) -> Outcome {
    if exit_code != Some(0i32) {
        Outcome::WorkerExitFailure {
            code: match exit_code {
                Some(c) => c,
                None => -1i32,
            },
            last_line: m.last_line,
        }
    } else {
        match m.result {
            Some(c) => Outcome::Completed(c),
            None => Outcome::ProtocolViolation,
        }
    }
}

/// The outcome that a returned value stands for.
pub open spec fn outcome_of(r: Result<BackendResult, ConversionError>) -> Outcome {
    match r {
        Ok(b) => Outcome::Completed(b@),
        Err(ConversionError::WorkerExitFailure { code, last_line }) => Outcome::WorkerExitFailure {
            code,
            last_line: last_line@,
        },
        Err(ConversionError::ProtocolViolation) => Outcome::ProtocolViolation,
        Err(_) => Outcome::Other,
    }
}

/// What to do with one stdout line.
pub enum LineAction {
    /// The line is blank.
    Skip,
    /// The line, trimmed, did not parse: log it and go on.
    Malformed(String),
    /// The line parsed: forward the document to the progress sink.
    Forward(serde_json::Value),
}

/// Reads the terminal result out of a document, if it is a completion
/// document.
pub fn completion_of(doc: &serde_json::Value) -> (r: Option<BackendResult>)
    ensures
        opt_result(r) == document_completion(json_view(*doc)),
{
    proof {
        reveal_strlit("event");
        reveal_strlit("status");
        reveal_strlit("message");
        reveal_strlit("outputs");
    }
    assert("event"@ =~= key_event());
    assert("status"@ =~= key_status());
    assert("message"@ =~= key_message());
    assert("outputs"@ =~= key_outputs());
    let event = match member(doc, "event") {
        Some(m) => as_text(&m),
        None => None,
    };
    let status = match member(doc, "status") {
        Some(m) => as_text(&m),
        None => None,
    };
    let message = match member(doc, "message") {
        Some(m) => as_text(&m),
        None => None,
    };
    let outputs = match member(doc, "outputs") {
        Some(m) => as_strings(m),
        None => None,
    };
    decode_completion(event, status, message, outputs)
}

/// Follows the worker's stdout, line by line.
pub struct StdoutRelay {
    final_result: Option<BackendResult>,
    last_line: String,
}

impl View for StdoutRelay {
    type V = RelayModel;

    closed spec fn view(&self) -> RelayModel {
        RelayModel { result: opt_result(self.final_result), last_line: self.last_line@ }
    }
}

impl StdoutRelay {
    /// A relay that has seen no line.
    pub fn new() -> (r: Self)
        ensures
            r@ == relay_start(),
    {
        let r = StdoutRelay { final_result: None, last_line: String::new() };
        assert(r@.last_line =~= Seq::<char>::empty());
        r
    }

    /// Takes one stdout line and says what to do with it.
    pub fn on_line(&mut self, raw: &str) -> (action: LineAction)
        ensures
            final(self)@ == relay_step(old(self)@, raw@),
            match action {
                LineAction::Skip => is_blank(raw@),
                LineAction::Malformed(t) => is_malformed(raw@) && t@ == trimmed(raw@),
                LineAction::Forward(v) => !is_blank(raw@) && line_document(raw@) == Some(json_view(v)),
            },
    {
        let text = trim_text(raw);
        if text.as_str().is_empty() {
            return LineAction::Skip;
        }
        let doc = parse_document(text.as_str());
        match doc {
            None => {
                self.last_line = text.clone();
                LineAction::Malformed(text)
            },
            Some(v) => {
                let completion = completion_of(&v);
                if completion.is_some() {
                    self.final_result = completion;
                }
                self.last_line = text;
                LineAction::Forward(v)
            },
        }
    }

    /// The last non-blank stdout line seen, trimmed.
    pub fn last_line(&self) -> (r: &String)
        ensures
            r@ == self@.last_line,
    {
        &self.last_line
    }

    /// Reconciles what stdout said with the exit code (none when the process
    /// ended without one).
    pub fn finish(self, exit_code: Option<i32>) -> (r: Result<BackendResult, ConversionError>)
        ensures
            outcome_of(r) == settle(self@, exit_code),
    {
        match exit_code {
            Some(c) if c == 0 => match self.final_result {
                Some(b) => Ok(b),
                None => Err(ConversionError::ProtocolViolation),
            },
            _ => {
                let code: i32 = match exit_code {
                    Some(c) => c,
                    None => -1,
                };
                Err(ConversionError::WorkerExitFailure { code, last_line: self.last_line })
            },
        }
    }
}

} // verus!
