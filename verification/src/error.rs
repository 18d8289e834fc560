//! Why an operation is refused.

use cosmwasm_std::StdError;
use vstd::prelude::*;

verus! {

/// The host's error type. The library carries such a value from where the host or
/// an encoder produced it to the caller and never looks inside.
#[verifier::external_type_specification]
#[verifier::external_body]
pub struct ExStdError(StdError);

/// The ways in which an operation fails. Each failure ends the whole invocation.
#[derive(Debug)]
pub enum ContractError {
    /// A failure of the host or of an encoder, passed on as it came.
    Std(StdError),
    /// The caller is not the current evacuation address.
    Unauthorized {},
    /// The funds sent along do not fit the operation; the text says why.
    InvalidFunds(String),
    /// Any other failure, described by its text.
    Generic(String),
}

/// The mathematical value of a [`ContractError`].
pub enum ContractErrorView {
    Std(StdError),
    Unauthorized,
    InvalidFunds(Seq<char>),
    Generic(Seq<char>),
}

impl DeepView for ContractError {
    type V = ContractErrorView;

    open spec fn deep_view(&self) -> ContractErrorView {
        match self {
            ContractError::Std(e) => ContractErrorView::Std(*e),
            ContractError::Unauthorized {  } => ContractErrorView::Unauthorized,
            ContractError::InvalidFunds(reason) => ContractErrorView::InvalidFunds(reason@),
            ContractError::Generic(reason) => ContractErrorView::Generic(reason@),
        }
    }
}

impl View for ContractError {
    type V = ContractErrorView;

    open spec fn view(&self) -> ContractErrorView {
        self.deep_view()
    }
}

/// What an operation comes to, as far as its arguments decide it.
pub enum Outcome<T> {
    /// It succeeds with this value.
    Done(T),
    /// It fails with this error.
    Refused(ContractErrorView),
    /// It fails because an encoder failed, with the encoder's own error.
    EncoderFailed,
}

/// The mathematical value of an operation's result.
pub open spec fn result_view<T: DeepView>(r: Result<T, ContractError>) -> Result<
    T::V,
    ContractErrorView,
> {
    match r {
        Ok(value) => Ok(value.deep_view()),
        Err(e) => Err(e@),
    }
}

/// Whether the result `r` is what `outcome` describes.
pub open spec fn comes_to<T>(r: Result<T, ContractErrorView>, outcome: Outcome<T>) -> bool {
    match outcome {
        Outcome::Done(value) => r == Ok::<T, ContractErrorView>(value),
        Outcome::Refused(e) => r == Err::<T, ContractErrorView>(e),
        Outcome::EncoderFailed => r matches Err(ContractErrorView::Std(_)),
    }
}

} // verus!
