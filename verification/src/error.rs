//! The failures that the bridge reports.

use vstd::prelude::*;
use vstd::string::*;

verus! {

/// Why an entry point refused its input or could not go on.
#[derive(Debug, Clone, PartialEq, Eq)]
pub enum ContractError {
    /// Wire data that could not be decoded.
    PayloadParse { reason: String },
    /// A class identifier, port or channel that breaks the identifier format.
    IdentifierFormat { identifier: String },
    /// The host could not resolve the sender's address.
    UnresolvedSender { reason: String },
    /// The NFT module failed or did not answer.
    Collaborator { reason: String },
    /// The host's storage holds a value that cannot be read back.
    Host { reason: String },
}

/// A `ContractError` with its texts as sequences of characters.
pub enum ContractErrorView {
    PayloadParse { reason: Seq<char> },
    IdentifierFormat { identifier: Seq<char> },
    UnresolvedSender { reason: Seq<char> },
    Collaborator { reason: Seq<char> },
    Host { reason: Seq<char> },
}

impl ContractErrorView {
    /// The text that is shown for this failure.
    pub open spec fn text(self) -> Seq<char> {
        match self {
            ContractErrorView::PayloadParse { reason } => "cannot parse packet data: "@ + reason,
            ContractErrorView::IdentifierFormat { identifier } => "malformed identifier: "@
                + identifier,
            ContractErrorView::UnresolvedSender { reason } => "cannot resolve sender: "@ + reason,
            ContractErrorView::Collaborator { reason } => "NFT module failure: "@ + reason,
            ContractErrorView::Host { reason } => "storage failure: "@ + reason,
        }
    }
}

impl View for ContractError {
    type V = ContractErrorView;

    open spec fn view(&self) -> ContractErrorView {
        match self {
            ContractError::PayloadParse { reason } => ContractErrorView::PayloadParse {
                reason: reason@,
            },
            ContractError::IdentifierFormat { identifier } => ContractErrorView::IdentifierFormat {
                identifier: identifier@,
            },
            ContractError::UnresolvedSender { reason } => ContractErrorView::UnresolvedSender {
                reason: reason@,
            },
            ContractError::Collaborator { reason } => ContractErrorView::Collaborator {
                reason: reason@,
            },
            ContractError::Host { reason } => ContractErrorView::Host { reason: reason@ },
        }
    }
}

impl ContractError {
    /// The text that is shown for this failure, as it goes into an error
    /// acknowledgement.
    pub fn message(&self) -> (text: String)
        ensures
            text@ == self@.text(),
    {
        match self {
            ContractError::PayloadParse { reason } => "cannot parse packet data: ".to_owned().concat(
                reason.as_str(),
            ),
            ContractError::IdentifierFormat { identifier } => "malformed identifier: ".to_owned()
                .concat(identifier.as_str()),
            ContractError::UnresolvedSender { reason } => "cannot resolve sender: ".to_owned()
                .concat(reason.as_str()),
            ContractError::Collaborator { reason } => "NFT module failure: ".to_owned().concat(
                reason.as_str(),
            ),
            ContractError::Host { reason } => "storage failure: ".to_owned().concat(
                reason.as_str(),
            ),
        }
    }
}

} // verus!
