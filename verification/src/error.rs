//! The errors with which requests are refused.

use vstd::prelude::*;

verus! {

/// Why the marketplace and messaging operations refuse a request.
#[derive(Clone, Copy, Debug, PartialEq, Eq, Structural)]
pub enum OtakuVerseError {
    InvalidInstructionData,
    InsufficientFunds,
    Unauthorized,
    NFTAlreadyExists,
    NFTNotFound,
    InvalidNFTMetadata,
    InvalidMessageData,
    CommunityNotFound,
}

impl OtakuVerseError {
    /// The number under which the runtime reports this error: the position
    /// of the variant, counted from zero.
    pub open spec fn spec_code(self) -> u32 {
        match self {
            OtakuVerseError::InvalidInstructionData => 0,
            OtakuVerseError::InsufficientFunds => 1,
            OtakuVerseError::Unauthorized => 2,
            OtakuVerseError::NFTAlreadyExists => 3,
            OtakuVerseError::NFTNotFound => 4,
            OtakuVerseError::InvalidNFTMetadata => 5,
            OtakuVerseError::InvalidMessageData => 6,
            OtakuVerseError::CommunityNotFound => 7,
        }
    }

    #[verifier::when_used_as_spec(spec_code)]
    pub fn code(self) -> (code: u32)
        ensures
            code == self.spec_code(),
    {
        match self {
            OtakuVerseError::InvalidInstructionData => 0,
            OtakuVerseError::InsufficientFunds => 1,
            OtakuVerseError::Unauthorized => 2,
            OtakuVerseError::NFTAlreadyExists => 3,
            OtakuVerseError::NFTNotFound => 4,
            OtakuVerseError::InvalidNFTMetadata => 5,
            OtakuVerseError::InvalidMessageData => 6,
            OtakuVerseError::CommunityNotFound => 7,
        }
    }

    /// The error that a number stands for, if any.
    pub fn from_code(code: u32) -> (error: Option<OtakuVerseError>)
        ensures
            code < 8 <==> error is Some,
            error matches Some(e) ==> e.spec_code() == code,
    {
        match code {
            0 => Some(OtakuVerseError::InvalidInstructionData),
            1 => Some(OtakuVerseError::InsufficientFunds),
            2 => Some(OtakuVerseError::Unauthorized),
            3 => Some(OtakuVerseError::NFTAlreadyExists),
            4 => Some(OtakuVerseError::NFTNotFound),
            5 => Some(OtakuVerseError::InvalidNFTMetadata),
            6 => Some(OtakuVerseError::InvalidMessageData),
            7 => Some(OtakuVerseError::CommunityNotFound),
            _ => None,
        }
    }
}

/// How the runtime is told that a request failed.
#[derive(Clone, Copy, Debug, PartialEq, Eq, Structural)]
pub enum ProgramError {
    /// An error of the program's own, by its number.
    Custom(u32),
    /// The request could not be read.
    InvalidInstructionData,
    /// An account does not hold what it should.
    InvalidAccountData,
    /// The request came with fewer accounts than it needs.
    NotEnoughAccountKeys,
    /// No address can be derived from the seeds.
    InvalidSeeds,
    /// A request was meant for another program.
    IncorrectProgramId,
}

impl From<OtakuVerseError> for ProgramError {
    fn from(e: OtakuVerseError) -> (error: ProgramError) {
        ProgramError::Custom(e.code())
    }
}

impl vstd::std_specs::convert::FromSpecImpl<OtakuVerseError> for ProgramError {
    open spec fn obeys_from_spec() -> bool {
        true
    }

    open spec fn from_spec(e: OtakuVerseError) -> ProgramError {
        ProgramError::Custom(e.spec_code())
    }
}

/// Distinct errors have distinct numbers.
pub proof fn lemma_error_codes_distinct(a: OtakuVerseError, b: OtakuVerseError)
    ensures
        a.spec_code() == b.spec_code() <==> a == b,
{
}

/// Why the staking, governance, event and credential operations refuse a
/// request.
#[derive(Clone, Copy, Debug, PartialEq, Eq, Structural)]
pub enum ErrorCode {
    /// The stake position is not active.
    NFTNotStaked,
    /// The proposal has been finalized.
    ProposalNotActive,
    /// The event is completed or cancelled.
    EventNotActive,
    /// The event has as many participants as it admits.
    EventFull,
    /// The caller is not the one the record names.
    Unauthorized,
    /// An active stake position exists for this staker and token.
    AlreadyStaked,
    /// This voter has voted on this proposal.
    DuplicateVote,
    /// A record exists under the key of the one to be created.
    AlreadyExists,
    /// The record found is not the one that the request names.
    NotFound,
    /// A text is longer than the record has room for.
    FieldTooLong,
}

/// The kinds of refusal.
#[derive(Clone, Copy, Debug, PartialEq, Eq, Structural)]
pub enum ErrorCategory {
    Unauthorized,
    NotFound,
    AlreadyExists,
    InvalidState,
    CapacityExceeded,
    ValidationFailure,
}

impl ErrorCode {
    /// The kind of refusal that an error belongs to.
    pub open spec fn spec_category(self) -> ErrorCategory {
        match self {
            ErrorCode::NFTNotStaked => ErrorCategory::InvalidState,
            ErrorCode::ProposalNotActive => ErrorCategory::InvalidState,
            ErrorCode::EventNotActive => ErrorCategory::InvalidState,
            ErrorCode::EventFull => ErrorCategory::CapacityExceeded,
            ErrorCode::Unauthorized => ErrorCategory::Unauthorized,
            ErrorCode::AlreadyStaked => ErrorCategory::AlreadyExists,
            ErrorCode::DuplicateVote => ErrorCategory::AlreadyExists,
            ErrorCode::AlreadyExists => ErrorCategory::AlreadyExists,
            ErrorCode::NotFound => ErrorCategory::NotFound,
            ErrorCode::FieldTooLong => ErrorCategory::ValidationFailure,
        }
    }

    #[verifier::when_used_as_spec(spec_category)]
    pub fn category(self) -> (category: ErrorCategory)
        ensures
            category == self.spec_category(),
    {
        match self {
            ErrorCode::NFTNotStaked => ErrorCategory::InvalidState,
            ErrorCode::ProposalNotActive => ErrorCategory::InvalidState,
            ErrorCode::EventNotActive => ErrorCategory::InvalidState,
            ErrorCode::EventFull => ErrorCategory::CapacityExceeded,
            ErrorCode::Unauthorized => ErrorCategory::Unauthorized,
            ErrorCode::AlreadyStaked => ErrorCategory::AlreadyExists,
            ErrorCode::DuplicateVote => ErrorCategory::AlreadyExists,
            ErrorCode::AlreadyExists => ErrorCategory::AlreadyExists,
            ErrorCode::NotFound => ErrorCategory::NotFound,
            ErrorCode::FieldTooLong => ErrorCategory::ValidationFailure,
        }
    }

    /// The text shown to a user for this error.
    pub open spec fn spec_message(self) -> Seq<char> {
        match self {
            ErrorCode::NFTNotStaked => "NFT is not staked"@,
            ErrorCode::ProposalNotActive => "Proposal is not active"@,
            ErrorCode::EventNotActive => "Event is not active"@,
            ErrorCode::EventFull => "Event is full"@,
            ErrorCode::Unauthorized => "Unauthorized access"@,
            ErrorCode::AlreadyStaked => "NFT is already staked"@,
            ErrorCode::DuplicateVote => "Vote already cast"@,
            ErrorCode::AlreadyExists => "Record already exists"@,
            ErrorCode::NotFound => "Record not found"@,
            ErrorCode::FieldTooLong => "Text is too long"@,
        }
    }

    pub fn message(self) -> (text: String)
        ensures
            text@ == self.spec_message(),
    {
        match self {
            ErrorCode::NFTNotStaked => "NFT is not staked".to_owned(),
            ErrorCode::ProposalNotActive => "Proposal is not active".to_owned(),
            ErrorCode::EventNotActive => "Event is not active".to_owned(),
            ErrorCode::EventFull => "Event is full".to_owned(),
            ErrorCode::Unauthorized => "Unauthorized access".to_owned(),
            ErrorCode::AlreadyStaked => "NFT is already staked".to_owned(),
            ErrorCode::DuplicateVote => "Vote already cast".to_owned(),
            ErrorCode::AlreadyExists => "Record already exists".to_owned(),
            ErrorCode::NotFound => "Record not found".to_owned(),
            ErrorCode::FieldTooLong => "Text is too long".to_owned(),
        }
    }
}

} // verus!
