//! The request handed to the worker and the result it reports back.
use vstd::prelude::*;

verus! {

/// What the caller asks the worker to do: the input files, the output
/// format and the output directory.
#[derive(Debug, Clone)]
pub struct ConvertPayload {
    pub files: Vec<String>,
    pub format: String,
    pub output: String,
}

/// The terminal result that the worker reports in its completion document.
#[derive(Debug, Clone)]
pub struct BackendResult {
    pub status: String,
    pub message: String,
    pub outputs: Vec<String>,
}

impl Default for BackendResult {
    /// An empty result: no status, no message, no outputs.
    fn default() -> (r: BackendResult)
        ensures
            r.status@ == Seq::<char>::empty(),
            r.message@ == Seq::<char>::empty(),
            r.outputs@ == Seq::<String>::empty(),
    {
        let r = BackendResult { status: String::new(), message: String::new(), outputs: Vec::new() };
        assert(r.status@ =~= Seq::<char>::empty());
        assert(r.message@ =~= Seq::<char>::empty());
        assert(r.outputs@ =~= Seq::<String>::empty());
        r
    }
}

/// The mathematical value of a [`BackendResult`].
pub struct ResultModel {
    pub status: Seq<char>,
    pub message: Seq<char>,
    pub outputs: Seq<Seq<char>>,
}

impl View for BackendResult {
    type V = ResultModel;

    open spec fn view(&self) -> ResultModel {
        ResultModel {
            status: self.status@,
            message: self.message@,
            outputs: self.outputs.deep_view(),
        }
    }
}

/// The view of an optional result.
pub open spec fn opt_result(o: Option<BackendResult>) -> Option<ResultModel> {
    match o {
        Some(b) => Some(b@),
        None => None,
    }
}

/// The value of the completion marker in a document's `event` member.
pub open spec fn complete_marker() -> Seq<char> {
    seq!['c', 'o', 'm', 'p', 'l', 'e', 't', 'e']
}

/// The terminal result that a document with these members stands for: none
/// unless `event` is the completion marker; a missing `status` takes the
/// marker, a missing `message` is empty, missing `outputs` are none.
pub open spec fn completion_model(
    event: Option<Seq<char>>,
    status: Option<Seq<char>>,
    message: Option<Seq<char>>,
    outputs: Option<Seq<Seq<char>>>,
) -> Option<ResultModel> {
    if event == Some(complete_marker()) {
        Some(ResultModel {
            status: match status {
                Some(s) => s,
                None => complete_marker(),
            },
            message: match message {
                Some(m) => m,
                None => Seq::empty(),
            },
            outputs: match outputs {
                Some(o) => o,
                None => Seq::empty(),
            },
        })
    } else {
        None
    }
}

/// Whether a text is the completion marker.
pub fn is_complete_marker(s: &String) -> (r: bool)
    ensures
        r == (s@ == complete_marker()),
{
    let marker = String::from_str("complete");
    proof {
        reveal_strlit("complete");
    }
    assert(marker@ =~= complete_marker());
    *s == marker
}

/// Builds the terminal result of a document from its `event`, `status`,
/// `message` and `outputs` members, each present only where it has the
/// expected kind.
pub fn decode_completion(
    event: Option<String>,
    status: Option<String>,
    message: Option<String>,
    outputs: Option<Vec<String>>,
) -> (r: Option<BackendResult>)
    ensures
        opt_result(r) == completion_model(
            crate::json::opt_text(event),
            crate::json::opt_text(status),
            crate::json::opt_text(message),
            match outputs {
                Some(o) => Some(o.deep_view()),
                None => None,
            },
        ),
{
    let completes = match &event {
        Some(e) => is_complete_marker(e),
        None => false,
    };
    if !completes {
        return None;
    }
    let status = match status {
        Some(s) => s,
        None => {
            let marker = String::from_str("complete");
            proof {
                reveal_strlit("complete");
            }
            assert(marker@ =~= complete_marker());
            marker
        },
    };
    let message = match message {
        Some(m) => m,
        None => {
            let empty = String::new();
            assert(empty@ =~= Seq::<char>::empty());
            empty
        },
    };
    let outputs = match outputs {
        Some(o) => o,
        None => {
            let empty: Vec<String> = Vec::new();
            assert(empty.deep_view() =~= Seq::<Seq<char>>::empty());
            empty
        },
    };
    let r = BackendResult { status, message, outputs };
    Some(r)
}

} // verus!
