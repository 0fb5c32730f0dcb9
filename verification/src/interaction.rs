use vstd::prelude::*;

use crate::types::{CallToolResult, Content, McpError, ZhiRequest};

verus! {

/// The prompt request handed to the human-interaction collaborator.
pub struct PopupRequest {
    pub id: String,
    pub message: String,
    pub predefined_options: Option<Vec<String>>,
    pub is_markdown: bool,
}

pub ghost struct PopupRequestView {
    pub id: Seq<char>,
    pub message: Seq<char>,
    pub predefined_options: Option<Seq<Seq<char>>>,
    pub is_markdown: bool,
}

impl View for PopupRequest {
    type V = PopupRequestView;

    open spec fn view(&self) -> PopupRequestView {
        PopupRequestView {
            id: self.id@,
            message: self.message@,
            predefined_options: match self.predefined_options {
                Some(v) => Some(v@.map_values(|s: String| s@)),
                None => None,
            },
            is_markdown: self.is_markdown,
        }
    }
}

/// The leader capability: relays a message to the human collaborator and
/// brings the response back as protocol content.
pub struct InteractionTool;

impl InteractionTool {
    /// Builds the prompt request for the collaborator. An empty option list
    /// becomes an absent one; everything else is carried over unchanged. The
    /// unique request identifier is the caller's to supply.
    pub fn zhi_popup_request(request: ZhiRequest, request_id: String) -> (p: PopupRequest)
        ensures
            p@.id == request_id@,
            p@.message == request@.message,
            request@.predefined_options.len() == 0 ==> p@.predefined_options is None,
            request@.predefined_options.len() > 0 ==> p@.predefined_options == Some(
                request@.predefined_options,
            ),
            p@.is_markdown == request@.is_markdown,
    {
        let ZhiRequest { message, predefined_options, is_markdown } = request;
        let popts: Option<Vec<String>> = if predefined_options.len() == 0 {
            None
        } else {
            Some(predefined_options)
        };
        PopupRequest { id: request_id, message, predefined_options: popts, is_markdown }
    }

    /// Folds the collaborator's outcome into the protocol shape: a response
    /// becomes a successful result carrying its content verbatim; a failure
    /// surfaces with the interaction diagnostic prefix.
    pub fn zhi(outcome: Result<Vec<Content>, String>) -> (r: Result<CallToolResult, McpError>)
        ensures
            outcome matches Ok(c) ==> (r matches Ok(res) && res.content@ == c@ && !res.is_error),
            outcome matches Err(e) ==> (r matches Err(McpError::CollaboratorFailure { message })
                && message@ == "擎天柱通信链路故障: "@ + e@),
    {
        match outcome {
            Ok(content) => Ok(CallToolResult::success(content)),
            Err(e) => {
                let mut message = String::from_str("擎天柱通信链路故障: ");
                message.append(e.as_str());
                Err(McpError::CollaboratorFailure { message })
            },
        }
    }
}

} // verus!
