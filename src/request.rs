//! The one JSON document written to the worker's stdin.
use vstd::prelude::*;
use crate::json::{json_quoted, quote};
use crate::payload::ConvertPayload;

verus! {

/// The string literals of the texts, separated by commas.
pub open spec fn quoted_items(texts: Seq<Seq<char>>) -> Seq<char>
    decreases texts.len(),
{
    if texts.len() == 0 {
        Seq::empty()
    } else if texts.len() == 1 {
        json_quoted(texts[0])
    } else {
        quoted_items(texts.drop_last()) + ","@ + json_quoted(texts.last())
    }
}

/// The request document, keys in sorted order:
/// `{"files":[..],"format":..,"operation":..,"output":..}`.
pub open spec fn request_text(
    operation: Seq<char>,
    files: Seq<Seq<char>>,
    format: Seq<char>,
    output: Seq<char>,
) -> Seq<char> {
    "{\"files\":["@ + quoted_items(files) + "],\"format\":"@ + json_quoted(format)
        + ",\"operation\":"@ + json_quoted(operation) + ",\"output\":"@ + json_quoted(output)
        + "}"@
}

/// Writes the request for an operation on a payload as one JSON document.
pub fn encode_request(operation: &str, payload: &ConvertPayload) -> (r: String)
    ensures
        r@ == request_text(operation@, payload.files.deep_view(), payload.format@, payload.output@),
{
    let mut out = String::from_str("{\"files\":[");
    let ghost head = out@;
    let mut i: usize = 0;
    while i < payload.files.len()
        invariant
            i <= payload.files.len(),
            head == "{\"files\":["@,
            out@ == head + quoted_items(payload.files.deep_view().take(i as int)),
        decreases payload.files.len() - i,
    {
        let q = quote(payload.files[i].as_str());
        let ghost before = payload.files.deep_view().take(i as int);
        let ghost after = payload.files.deep_view().take(i + 1);
        assert(after.drop_last() =~= before);
        assert(after.last() == payload.files@[i as int]@);
        if i > 0 {
            out.append(",");
        }
        out.append(q.as_str());
        i = i + 1;
        assert(out@ =~= head + quoted_items(after));
    }
    assert(payload.files.deep_view().take(payload.files.len() as int) =~= payload.files.deep_view());
    let fmt = quote(payload.format.as_str());
    let op = quote(operation);
    let dest = quote(payload.output.as_str());
    out.append("],\"format\":");
    out.append(fmt.as_str());
    out.append(",\"operation\":");
    out.append(op.as_str());
    out.append(",\"output\":");
    out.append(dest.as_str());
    out.append("}");
    assert(out@ =~= request_text(
        operation@,
        payload.files.deep_view(),
        payload.format@,
        payload.output@,
    ));
    out
}

} // verus!
