//! Why an operation is refused.

use vstd::prelude::*;

verus! {

/// `cosmwasm_std::StdError`, the error with which the address validator of
/// the host rejects an identity. The engine never looks inside it: it carries
/// the value it was given to the caller unchanged.
#[verifier::external_type_specification]
#[verifier::external_body]
pub struct ExStdError(cosmwasm_std::StdError);

/// Why an operation was refused. A refused operation changes nothing.
#[derive(Debug, PartialEq)]
pub enum ContractError {
    /// The validator rejected the recipient's address; its error is inside.
    Std(cosmwasm_std::StdError),
    /// The call did not attach exactly one coin.
    InvalidFundsLength {},
    /// A relative timeout of zero was given.
    TimeoutCannotBeZero {},
    /// A denomination does not match.
    InvalidFundsDenom {},
    /// An amount does not match.
    InvalidFundsAmount {},
    /// The deal has left the open state.
    DealNotOpen {},
    /// The timeout of the deal has passed.
    DealExpired {},
    /// No deal has this id.
    DealNotFound {},
    /// The caller is not the identity that may do this.
    Unauthorized {},
    /// The timeout of the deal has not passed yet.
    DealNotExpired {},
}

} // verus!
