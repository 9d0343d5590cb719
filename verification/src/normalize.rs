//! Request normalization: the two accepted request shapes are flattened
//! into one prompt string. For multi-node requests the node contents are
//! concatenated in input order, each under a 1-based index, followed by the
//! caller's instruction; node ids are carried for traceability only and
//! never reach the prompt text.

use vstd::prelude::*;

use crate::strings::{decimal_digits, usize_to_string};

verus! {

/// One canvas node: its id and its text content.
#[derive(Debug)]
pub struct NodeContent {
    pub id: String,
    pub content: String,
}

/// A prompt request: either a single node's content, or several labeled
/// nodes together with an instruction. Both may carry a system prompt.
#[derive(Debug)]
pub enum PromptRequest {
    SingleNode { content: String, system_prompt: Option<String> },
    MultiNode { nodes: Vec<NodeContent>, prompt: String, system_prompt: Option<String> },
}

/// The line a single node contributes to a flattened prompt.
pub open spec fn spec_node_line(index: nat, content: Seq<char>) -> Seq<char> {
    "Node "@ + decimal_digits(index) + ": "@ + content + "\n\n"@
}

/// The node lines of a flattened prompt, in input order, indexed from 1.
pub open spec fn spec_nodes_text(contents: Seq<Seq<char>>) -> Seq<char>
    decreases contents.len(),
{
    if contents.len() == 0 {
        Seq::empty()
    } else {
        spec_nodes_text(contents.drop_last()) + spec_node_line(
            contents.len() as nat,
            contents.last(),
        )
    }
}

/// Appending one node to a request extends the flattened text by exactly
/// that node's line, under the next 1-based index: earlier nodes keep
/// their place in the text, so input order is preserved exactly.
pub proof fn lemma_nodes_text_preserves_order(contents: Seq<Seq<char>>, extra: Seq<char>)
    ensures
        spec_nodes_text(contents.push(extra)) == spec_nodes_text(contents) + spec_node_line(
            (contents.len() + 1) as nat,
            extra,
        ),
{
    assert(contents.push(extra).drop_last() =~= contents);
    assert(contents.push(extra).last() == extra);
}

/// The flattened prompt text of a request.
pub open spec fn spec_normalized_prompt(request: PromptRequest) -> Seq<char> {
    match request {
        PromptRequest::SingleNode { content, .. } => content@,
        PromptRequest::MultiNode { nodes, prompt, .. } => spec_nodes_text(
            nodes@.map_values(|n: NodeContent| n.content@),
        ) + "Prompt: "@ + prompt@,
    }
}

/// The system prompt a request carries, unchanged.
pub open spec fn spec_request_system_prompt(request: PromptRequest) -> Option<Seq<char>> {
    match request {
        PromptRequest::SingleNode { system_prompt, .. } => system_prompt.deep_view(),
        PromptRequest::MultiNode { system_prompt, .. } => system_prompt.deep_view(),
    }
}

/// Flattens a request into one prompt string and the optional system
/// prompt it carries. The result is a function of the request alone, so
/// two calls on equal requests yield equal output.
pub fn normalize(request: PromptRequest) -> (r: (String, Option<String>))
    ensures
        r.0@ == spec_normalized_prompt(request),
        r.1.deep_view() == spec_request_system_prompt(request),
{
    match request {
        PromptRequest::SingleNode { content, system_prompt } => (content, system_prompt),
        PromptRequest::MultiNode { nodes, prompt, system_prompt } => {
            let ghost contents = nodes@.map_values(|n: NodeContent| n.content@);
            let mut text = String::new();
            let mut i: usize = 0;
            proof {
                assert(text@ =~= spec_nodes_text(contents.take(0)));
            }
            while i < nodes.len()
                invariant
                    i <= nodes@.len(),
                    contents == nodes@.map_values(|n: NodeContent| n.content@),
                    text@ == spec_nodes_text(contents.take(i as int)),
                decreases nodes@.len() - i,
            {
                text.append("Node ");
                let index = usize_to_string(i + 1);
                text.append(index.as_str());
                text.append(": ");
                text.append(nodes[i].content.as_str());
                text.append("\n\n");
                proof {
                    assert(contents.take(i + 1 as int).drop_last() =~= contents.take(i as int));
                    assert(contents.take(i + 1 as int).last() == contents[i as int]);
                    assert(text@ =~= spec_nodes_text(contents.take(i + 1 as int)));
                }
                i = i + 1;
            }
            proof {
                assert(contents.take(nodes@.len() as int) =~= contents);
            }
            text.append("Prompt: ");
            text.append(prompt.as_str());
            (text, system_prompt)
        },
    }
}

} // verus!
