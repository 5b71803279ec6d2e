//! Errors the contract returns, with their stable numeric codes.

use vstd::prelude::*;

verus! {

#[derive(Clone, Copy, Debug, PartialEq, Eq, Structural)]
pub enum Error {
    WagerBelowMinimum,
    WagerAboveMaximum,
    ActiveGameExists,
    InsufficientReserves,
    ContractPaused,
    NoActiveGame,
    InvalidPhase,
    CommitmentMismatch,
    RevealTimeout,
    InvalidVrfProof,
    NoWinningsToClaimOrContinue,
    InvalidCommitment,
    DuplicateCommitment,
    SideBetAlreadyPlaced,
    InvalidSideBetAmount,
    HistoryEntryNotFound,
    Unauthorized,
    InvalidFeePercentage,
    InvalidWagerLimits,
    InsufficientRole,
    InvalidMultiplier,
    InvalidReserveThreshold,
    InvalidVersionLabel,
    VersionNotFound,
    VersionLimitReached,
    TransferFailed,
    AdminTreasuryConflict,
    AlreadyInitialized,
    ProposalNotFound,
    AlreadyVoted,
    VotingClosed,
    VotingOpen,
    ThresholdNotMet,
    ProposalAlreadyExecuted,
    ProposalLimitReached,
    MpcSessionNotFound,
    MpcWrongPhase,
    MpcDuplicateParty,
    MpcUnknownParty,
    MpcShareMismatch,
    MpcInvalidSignature,
    MpcAlreadyRevealed,
    MpcInvalidThreshold,
    MpcSessionLimitReached,
}

impl Error {
    /// The numeric code of the error, stable across contract versions.
    pub open spec fn spec_code(self) -> u32 {
        match self {
            Error::WagerBelowMinimum => 1,
            Error::WagerAboveMaximum => 2,
            Error::ActiveGameExists => 3,
            Error::InsufficientReserves => 4,
            Error::ContractPaused => 5,
            Error::NoActiveGame => 10,
            Error::InvalidPhase => 11,
            Error::CommitmentMismatch => 12,
            Error::RevealTimeout => 13,
            Error::InvalidVrfProof => 14,
            Error::NoWinningsToClaimOrContinue => 20,
            Error::InvalidCommitment => 21,
            Error::DuplicateCommitment => 22,
            Error::SideBetAlreadyPlaced => 23,
            Error::InvalidSideBetAmount => 24,
            Error::HistoryEntryNotFound => 25,
            Error::Unauthorized => 30,
            Error::InvalidFeePercentage => 31,
            Error::InvalidWagerLimits => 32,
            Error::InsufficientRole => 33,
            Error::InvalidMultiplier => 34,
            Error::InvalidReserveThreshold => 35,
            Error::InvalidVersionLabel => 36,
            Error::VersionNotFound => 37,
            Error::VersionLimitReached => 38,
            Error::TransferFailed => 40,
            Error::AdminTreasuryConflict => 50,
            Error::AlreadyInitialized => 51,
            Error::ProposalNotFound => 60,
            Error::AlreadyVoted => 61,
            Error::VotingClosed => 62,
            Error::VotingOpen => 63,
            Error::ThresholdNotMet => 64,
            Error::ProposalAlreadyExecuted => 65,
            Error::ProposalLimitReached => 66,
            Error::MpcSessionNotFound => 70,
            Error::MpcWrongPhase => 71,
            Error::MpcDuplicateParty => 72,
            Error::MpcUnknownParty => 73,
            Error::MpcShareMismatch => 74,
            Error::MpcInvalidSignature => 75,
            Error::MpcAlreadyRevealed => 76,
            Error::MpcInvalidThreshold => 77,
            Error::MpcSessionLimitReached => 78,
        }
    }

    /// Returns the numeric code of the error.
    pub fn code(&self) -> (c: u32)
        ensures
            c == self.spec_code(),
    {
        match self {
            Error::WagerBelowMinimum => 1,
            Error::WagerAboveMaximum => 2,
            Error::ActiveGameExists => 3,
            Error::InsufficientReserves => 4,
            Error::ContractPaused => 5,
            Error::NoActiveGame => 10,
            Error::InvalidPhase => 11,
            Error::CommitmentMismatch => 12,
            Error::RevealTimeout => 13,
            Error::InvalidVrfProof => 14,
            Error::NoWinningsToClaimOrContinue => 20,
            Error::InvalidCommitment => 21,
            Error::DuplicateCommitment => 22,
            Error::SideBetAlreadyPlaced => 23,
            Error::InvalidSideBetAmount => 24,
            Error::HistoryEntryNotFound => 25,
            Error::Unauthorized => 30,
            Error::InvalidFeePercentage => 31,
            Error::InvalidWagerLimits => 32,
            Error::InsufficientRole => 33,
            Error::InvalidMultiplier => 34,
            Error::InvalidReserveThreshold => 35,
            Error::InvalidVersionLabel => 36,
            Error::VersionNotFound => 37,
            Error::VersionLimitReached => 38,
            Error::TransferFailed => 40,
            Error::AdminTreasuryConflict => 50,
            Error::AlreadyInitialized => 51,
            Error::ProposalNotFound => 60,
            Error::AlreadyVoted => 61,
            Error::VotingClosed => 62,
            Error::VotingOpen => 63,
            Error::ThresholdNotMet => 64,
            Error::ProposalAlreadyExecuted => 65,
            Error::ProposalLimitReached => 66,
            Error::MpcSessionNotFound => 70,
            Error::MpcWrongPhase => 71,
            Error::MpcDuplicateParty => 72,
            Error::MpcUnknownParty => 73,
            Error::MpcShareMismatch => 74,
            Error::MpcInvalidSignature => 75,
            Error::MpcAlreadyRevealed => 76,
            Error::MpcInvalidThreshold => 77,
            Error::MpcSessionLimitReached => 78,
        }
    }
}

/// Distinct errors have distinct codes.
pub proof fn law_error_codes_distinct(a: Error, b: Error)
    requires
        a != b,
    ensures
        a.spec_code() != b.spec_code(),
{
}

} // verus!
