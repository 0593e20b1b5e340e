//! Rejections of a requested transition.

use vstd::prelude::*;

verus! {

/// Every way a transition can be refused; a refused transition changes nothing.
#[derive(Clone, Copy, Debug, PartialEq, Eq, Structural)]
pub enum ErrorCode {
    AlreadyInitialized,
    TallyNotInitialized,
    VotingNotStarted,
    VotingEnded,
    VotingNotEnded,
    AlreadyFinalized,
    InvalidResults,
    NotWhitelisted,
    TokenAccountRequired,
    InvalidMint,
    InvalidTokenOwner,
    InsufficientTokens,
    DuplicateVoterRecord,
    ContractAlreadyRegistered,
    TooManyOptions,
    WhitelistTooLarge,
    NotProposalCreator,
}

} // verus!
