//! The reply that goes back to the caller: a tool result of the protocol
//! library, carrying one piece of text.

use rmcp::model::{CallToolResult, Content};
use vstd::prelude::*;

verus! {

/// The protocol library's result of a tool call. Its inside is not visible
/// here: a reply is only ever made, by `success_text`, and handed on. (Its
/// content blocks are of a type that is generic over a trait of the protocol
/// library, which keeps the fields from being declared.)
#[verifier::external_type_specification]
#[verifier::external_body]
pub struct ExCallToolResult(CallToolResult);

/// The successful tool result whose content is the single text block
/// `text`: what `CallToolResult::success` makes of the one-element vector
/// that holds `Content::text(text)`.
pub uninterp spec fn text_result(text: Seq<char>) -> CallToolResult;

/// Calls `rmcp::model::Content::text` on `text` and
/// `rmcp::model::CallToolResult::success` on the vector that holds the block
/// alone. Both only build a value from their argument, so the reply is a
/// function of the text: the contract gives that function its name and
/// claims nothing else of it.
#[verifier::external_body]
pub(crate) fn success_text(text: String) -> (reply: CallToolResult)
    ensures
        reply == text_result(text@),
{
    CallToolResult::success(vec![Content::text(text)])
}

} // verus!
