//! What holds of every run of the stdout relay, whatever the lines.
use vstd::prelude::*;
use crate::json::JsonModel;
use crate::payload::ResultModel;
use crate::protocol::{is_malformed, line_completion, line_document, relay_run, settle, Outcome};

verus! {

/// The documents that the relay forwards to the progress sink, in order.
pub open spec fn forwarded(lines: Seq<Seq<char>>) -> Seq<JsonModel>
    decreases lines.len(),
{
    if lines.len() == 0 {
        Seq::empty()
    } else {
        match line_document(lines.last()) {
            Some(v) => forwarded(lines.drop_last()).push(v),
            None => forwarded(lines.drop_last()),
        }
    }
}

/// How an invocation ends given what the worker wrote on stdout, what it
/// wrote on stderr, and its exit code. Stderr is only logged.
pub open spec fn invocation_outcome(
    stdout: Seq<Seq<char>>,
    stderr: Seq<Seq<char>>,
    exit_code: Option<i32>,
) -> Outcome {
    settle(relay_run(stdout), exit_code)
}

/// The result after a run is the one of the last completion line.
pub proof fn lemma_last_completion_wins(lines: Seq<Seq<char>>, k: int)
    requires
        0 <= k < lines.len(),
        line_completion(lines[k]).is_some(),
        forall|i: int| k < i < lines.len() ==> line_completion(#[trigger] lines[i]).is_none(),
    ensures
        relay_run(lines).result == line_completion(lines[k]),
    decreases lines.len(),
{
    if k < lines.len() - 1 {
        let rest = lines.drop_last();
        assert forall|i: int| k < i < rest.len() implies line_completion(#[trigger] rest[i]).is_none() by {
            assert(rest[i] == lines[i]);
        }
        lemma_last_completion_wins(rest, k);
        assert(line_completion(lines.last()).is_none());
    }
}

/// A run without completion lines has no result.
pub proof fn lemma_no_completion(lines: Seq<Seq<char>>)
    requires
        forall|i: int| 0 <= i < lines.len() ==> line_completion(#[trigger] lines[i]).is_none(),
    ensures
        relay_run(lines).result.is_none(),
    decreases lines.len(),
{
    if lines.len() > 0 {
        let rest = lines.drop_last();
        assert forall|i: int| 0 <= i < rest.len() implies line_completion(#[trigger] rest[i]).is_none() by {
            assert(rest[i] == lines[i]);
        }
        lemma_no_completion(rest);
        assert(line_completion(lines[lines.len() - 1]).is_none());
    }
}

/// A worker that writes exactly one completion line and exits with success
/// completes with that line's result, whatever progress, blank or malformed
/// lines surround it.
pub proof fn law_single_completion(lines: Seq<Seq<char>>, k: int, c: ResultModel)
    requires
        0 <= k < lines.len(),
        line_completion(lines[k]) == Some(c),
        forall|i: int| 0 <= i < lines.len() && i != k ==> line_completion(#[trigger] lines[i]).is_none(),
    ensures
        settle(relay_run(lines), Some(0i32)) == Outcome::Completed(c),
{
    lemma_last_completion_wins(lines, k);
}

/// A malformed line is only logged: taking it out of the stream changes
/// neither the forwarded documents nor the result.
pub proof fn law_malformed_line_ignored(
    prefix: Seq<Seq<char>>,
    bad: Seq<char>,
    suffix: Seq<Seq<char>>,
)
    requires
        is_malformed(bad),
    ensures
        forwarded(prefix.push(bad) + suffix) == forwarded(prefix + suffix),
        relay_run(prefix.push(bad) + suffix).result == relay_run(prefix + suffix).result,
    decreases suffix.len(),
{
    let with = prefix.push(bad) + suffix;
    let without = prefix + suffix;
    if suffix.len() == 0 {
        assert(with.drop_last() =~= prefix);
        assert(without =~= prefix);
    } else {
        let shorter = suffix.drop_last();
        law_malformed_line_ignored(prefix, bad, shorter);
        assert(with.drop_last() =~= prefix.push(bad) + shorter);
        assert(without.drop_last() =~= prefix + shorter);
        assert(with.last() == suffix.last());
        assert(without.last() == suffix.last());
    }
}

/// A worker that exits with anything but success fails with its exit code,
/// however many progress lines it wrote.
pub proof fn law_failed_exit(lines: Seq<Seq<char>>, exit_code: Option<i32>)
    requires
        exit_code != Some(0i32),
    ensures
        settle(relay_run(lines), exit_code) == (Outcome::WorkerExitFailure {
            code: match exit_code {
                Some(c) => c,
                None => -1i32,
            },
            last_line: relay_run(lines).last_line,
        }),
{
}

/// A worker that exits with success without a completion line violates the
/// protocol.
pub proof fn law_missing_completion(lines: Seq<Seq<char>>)
    requires
        forall|i: int| 0 <= i < lines.len() ==> line_completion(#[trigger] lines[i]).is_none(),
    ensures
        settle(relay_run(lines), Some(0i32)) == Outcome::ProtocolViolation,
{
    lemma_no_completion(lines);
}

/// Of two completion lines, the later one gives the result.
pub proof fn law_last_completion_wins(lines: Seq<Seq<char>>, i: int, j: int)
    requires
        0 <= i < j < lines.len(),
        line_completion(lines[i]).is_some(),
        line_completion(lines[j]).is_some(),
        forall|k: int| 0 <= k < lines.len() && k != i && k != j ==> line_completion(#[trigger] lines[k]).is_none(),
    ensures
        settle(relay_run(lines), Some(0i32)) == Outcome::Completed(line_completion(lines[j])->0),
{
    lemma_last_completion_wins(lines, j);
}

/// What the worker writes on stderr never changes how the invocation ends.
pub proof fn law_stderr_ignored(
    stdout: Seq<Seq<char>>,
    stderr_a: Seq<Seq<char>>,
    stderr_b: Seq<Seq<char>>,
    exit_code: Option<i32>,
)
    ensures
        invocation_outcome(stdout, stderr_a, exit_code) == invocation_outcome(stdout, stderr_b, exit_code),
{
}

} // verus!
