//! Text of the answers of the computational knowledge service.

use vstd::prelude::*;

use crate::text::{concat, replace_all, replace_text, same_text, trim, trimmed};

verus! {

/// The plain text of an answer, on one line: ` | ` becomes `: `, each line
/// break becomes ` | `, and surrounding white space goes.
pub open spec fn clean_spec(text: Seq<char>) -> Seq<char> {
    trimmed(replace_all(replace_all(text, " | "@, ": "@), "\n"@, " | "@))
}

/// Puts the plain text of an answer on one line.
pub fn clean_plaintext(text: &str) -> (r: String)
    ensures
        r@ == clean_spec(text@),
{
    proof {
        reveal_strlit(" | ");
        reveal_strlit("\n");
    }
    let a = replace_text(text, " | ", ": ");
    let b = replace_text(a.as_str(), "\n", " | ");
    trim(b.as_str())
}

/// A child of the answer document's root, as far as the answer depends on it.
#[derive(Debug)]
pub enum WaNode {
    /// A pod: its `id` attribute and the text of its first subpod's plain text.
    Pod { id: Option<String>, text: Option<String> },
    /// A list of suggestions: the text of its first suggestion.
    DidYouMean { text: Option<String> },
    /// Anything else.
    Other,
}

pub open spec fn is_input_id(id: Seq<char>) -> bool {
    id == "Input"@ || id == "Input information"@
}

/// Reading the nodes from position `i` on, with the interpretation found so
/// far: the last input pod sets the interpretation, and the scan stops at the
/// first result pod or the first suggestion.
pub open spec fn scan_spec(nodes: Seq<WaNode>, i: int, interp: Option<Seq<char>>) -> (Option<Seq<char>>, Option<Seq<char>>, Option<Seq<char>>)
    decreases nodes.len() - i,
{
    if i < 0 || i >= nodes.len() {
        (interp, None, None)
    } else {
        match nodes[i] {
            WaNode::Pod { id: Some(id), text: Some(t) } => if is_input_id(id@) {
                scan_spec(nodes, i + 1, Some(clean_spec(t@)))
            } else if id@ == "Result"@ {
                (interp, Some(clean_spec(t@)), None)
            } else {
                scan_spec(nodes, i + 1, interp)
            },
            WaNode::DidYouMean { text: Some(t) } => (interp, None, Some(t@)),
            _ => scan_spec(nodes, i + 1, interp),
        }
    }
}

/// The reply built from what was found.
pub open spec fn reply_spec(found: (Option<Seq<char>>, Option<Seq<char>>, Option<Seq<char>>)) -> Seq<char> {
    let (interp, answer, dym) = found;
    if interp is Some && answer is Some {
        interp.unwrap() + " = "@ + answer.unwrap()
    } else if answer is Some {
        answer.unwrap()
    } else if dym is Some {
        "Did you mean: "@ + dym.unwrap()
    } else {
        "Sorry, couldn't understand the question"@
    }
}

pub open spec fn view_opt(o: Option<String>) -> Option<Seq<char>> {
    match o {
        Some(s) => Some(s@),
        None => None,
    }
}

/// The reply built from what was found.
fn compose(interp: &Option<String>, answer: &Option<String>, dym: &Option<String>) -> (r: String)
    ensures
        r@ == reply_spec((view_opt(*interp), view_opt(*answer), view_opt(*dym))),
{
    match (interp, answer) {
        (Some(i), Some(a)) => {
            let x = concat(i.as_str(), " = ");
            concat(x.as_str(), a.as_str())
        },
        (None, Some(a)) => a.clone(),
        _ => match dym {
            Some(d) => concat("Did you mean: ", d.as_str()),
            None => "Sorry, couldn't understand the question".to_owned(),
        },
    }
}

/// The reply to a question, from the children of the answer document's root.
pub fn response_from_nodes(nodes: &Vec<WaNode>) -> (r: String)
    ensures
        r@ == reply_spec(scan_spec(nodes@, 0, None)),
{
    let mut interp: Option<String> = None;
    let mut i: usize = 0;
    while i < nodes.len()
        invariant
            i <= nodes@.len(),
            scan_spec(nodes@, 0, None) == scan_spec(nodes@, i as int, view_opt(interp)),
        decreases nodes@.len() - i,
    {
        match &nodes[i] {
            WaNode::Pod { id: Some(id), text: Some(t) } => {
                if same_text(id.as_str(), "Input") || same_text(id.as_str(), "Input information") {
                    interp = Some(clean_plaintext(t.as_str()));
                } else if same_text(id.as_str(), "Result") {
                    let a = Some(clean_plaintext(t.as_str()));
                    return compose(&interp, &a, &None);
                }
            },
            WaNode::DidYouMean { text: Some(t) } => {
                let d = Some(t.clone());
                return compose(&interp, &None, &d);
            },
            _ => {},
        }
        i = i + 1;
    }
    compose(&interp, &None, &None)
}

} // verus!
