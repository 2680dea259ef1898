//! Why a request failed.

use crate::model::ErrorView;
use vstd::prelude::*;

verus! {

/// The reasons for which a request is turned down. Each one ends the request
/// and leaves the stored state as it was.
#[derive(Debug, PartialEq, Eq)]
pub enum ContractError {
    /// The host turned the request down; `msg` is what it said.
    Std { msg: String },
    /// The caller may not do this.
    Unauthorized,
    /// The funds sent do not cover the price.
    InsufficientFunds,
    /// No record exists under this name.
    NameNotExists { name: String },
    /// A record exists under this name already.
    NameTaken { name: String },
    /// The name has fewer bytes than a name needs.
    NameTooShort { length: u64, min_length: u64 },
    /// The name has more bytes than a name may have.
    NameTooLong { length: u64, max_length: u64 },
    /// The name holds a character that no name may hold.
    InvalidCharacter { c: char },
    /// The bio has more bytes than a bio may have.
    BioTooLong { bio_length: u64, max_length: u64 },
    /// The website has more bytes than a website may have.
    WebsiteTooLong { website_length: u64, max_length: u64 },
}

impl View for ContractError {
    type V = ErrorView;

    open spec fn view(&self) -> ErrorView {
        match *self {
            ContractError::Std { msg } => ErrorView::Std { msg: msg@ },
            ContractError::Unauthorized => ErrorView::Unauthorized,
            ContractError::InsufficientFunds => ErrorView::InsufficientFunds,
            ContractError::NameNotExists { name } => ErrorView::NameNotExists { name: name@ },
            ContractError::NameTaken { name } => ErrorView::NameTaken { name: name@ },
            ContractError::NameTooShort { length, min_length } => ErrorView::NameTooShort {
                length: length as nat,
                min_length: min_length as nat,
            },
            ContractError::NameTooLong { length, max_length } => ErrorView::NameTooLong {
                length: length as nat,
                max_length: max_length as nat,
            },
            ContractError::InvalidCharacter { c } => ErrorView::InvalidCharacter { c },
            ContractError::BioTooLong { bio_length, max_length } => ErrorView::BioTooLong {
                bio_length: bio_length as nat,
                max_length: max_length as nat,
            },
            ContractError::WebsiteTooLong { website_length, max_length } => ErrorView::WebsiteTooLong {
                website_length: website_length as nat,
                max_length: max_length as nat,
            },
        }
    }
}

/// `res` is the failure that the model calls `e`.
pub open spec fn fails_with<T>(res: Result<T, ContractError>, e: ErrorView) -> bool {
    res matches Err(x) && x@ == e
}

} // verus!
