use vstd::prelude::*;

verus! {

/// What can go wrong in the dispatch core.
#[derive(Debug, Clone)]
pub enum ClientError {
    /// The backend selected by the current model names no registered kind;
    /// `index` is its position in the configured backend list.
    UnknownClient { client: String, index: usize },
    /// A configuration template was asked for a kind that is not registered.
    UnknownKind(String),
    /// An explicit or inherited proxy setting that is not a proxy URL;
    /// `cause` keeps the parser's message.
    InvalidProxy { proxy: String, cause: String },
    /// A backend exchange failed; `stream` tells a streaming exchange from a
    /// single one, and `cause` keeps the backend's own message.
    Fetch { stream: bool, cause: String },
}

} // verus!
