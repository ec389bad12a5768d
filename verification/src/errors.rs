//! What can go wrong, as a bare code and with its circumstances.

use crate::text::{decimal, push_decimal, push_signed_decimal, signed_decimal};
use vstd::prelude::*;
use vstd::std_specs::convert::FromSpecImpl;
use vstd::string::*;

verus! {

/// The failures of the hunt operations.
#[derive(Clone, Copy, Debug, PartialEq, Eq, PartialOrd, Ord, Structural)]
pub enum HuntErrorCode {
    HuntNotFound,
    ClueNotFound,
    InvalidHuntStatus,
    PlayerNotRegistered,
    ClueAlreadyCompleted,
    InvalidAnswer,
    HuntNotActive,
    Unauthorized,
    InsufficientRewardPool,
    DuplicateRegistration,
    InvalidTitle,
    InvalidDescription,
    InvalidAddress,
    NoCluesAdded,
}

impl HuntErrorCode {
    /// The number under which the failure is reported.
    pub open spec fn number(self) -> u32 {
        match self {
            HuntErrorCode::HuntNotFound => 1,
            HuntErrorCode::ClueNotFound => 2,
            HuntErrorCode::InvalidHuntStatus => 3,
            HuntErrorCode::PlayerNotRegistered => 4,
            HuntErrorCode::ClueAlreadyCompleted => 5,
            HuntErrorCode::InvalidAnswer => 6,
            HuntErrorCode::HuntNotActive => 7,
            HuntErrorCode::Unauthorized => 8,
            HuntErrorCode::InsufficientRewardPool => 9,
            HuntErrorCode::DuplicateRegistration => 10,
            HuntErrorCode::InvalidTitle => 11,
            HuntErrorCode::InvalidDescription => 12,
            HuntErrorCode::InvalidAddress => 13,
            HuntErrorCode::NoCluesAdded => 14,
        }
    }

    /// The number under which the failure is reported.
    pub fn code(self) -> (n: u32)
        ensures
            n == self.number(),
    {
        match self {
            HuntErrorCode::HuntNotFound => 1,
            HuntErrorCode::ClueNotFound => 2,
            HuntErrorCode::InvalidHuntStatus => 3,
            HuntErrorCode::PlayerNotRegistered => 4,
            HuntErrorCode::ClueAlreadyCompleted => 5,
            HuntErrorCode::InvalidAnswer => 6,
            HuntErrorCode::HuntNotActive => 7,
            HuntErrorCode::Unauthorized => 8,
            HuntErrorCode::InsufficientRewardPool => 9,
            HuntErrorCode::DuplicateRegistration => 10,
            HuntErrorCode::InvalidTitle => 11,
            HuntErrorCode::InvalidDescription => 12,
            HuntErrorCode::InvalidAddress => 13,
            HuntErrorCode::NoCluesAdded => 14,
        }
    }

    /// The failure that is reported under the number `n`, if there is one.
    pub fn from_code(n: u32) -> (code: Option<HuntErrorCode>)
        ensures
            match code {
                Some(c) => c.number() == n,
                None => forall|c: HuntErrorCode| c.number() != n,
            },
    {
        match n {
            1 => Some(HuntErrorCode::HuntNotFound),
            2 => Some(HuntErrorCode::ClueNotFound),
            3 => Some(HuntErrorCode::InvalidHuntStatus),
            4 => Some(HuntErrorCode::PlayerNotRegistered),
            5 => Some(HuntErrorCode::ClueAlreadyCompleted),
            6 => Some(HuntErrorCode::InvalidAnswer),
            7 => Some(HuntErrorCode::HuntNotActive),
            8 => Some(HuntErrorCode::Unauthorized),
            9 => Some(HuntErrorCode::InsufficientRewardPool),
            10 => Some(HuntErrorCode::DuplicateRegistration),
            11 => Some(HuntErrorCode::InvalidTitle),
            12 => Some(HuntErrorCode::InvalidDescription),
            13 => Some(HuntErrorCode::InvalidAddress),
            14 => Some(HuntErrorCode::NoCluesAdded),
            _ => None,
        }
    }
}

/// A failure together with what it was about.
#[derive(Debug)]
pub enum HuntError {
    HuntNotFound { hunt_id: u64 },
    ClueNotFound { hunt_id: u64 },
    InvalidHuntStatus,
    PlayerNotRegistered { hunt_id: u64 },
    ClueAlreadyCompleted { hunt_id: u64 },
    InvalidAnswer,
    HuntNotActive { hunt_id: u64 },
    Unauthorized,
    InsufficientRewardPool { required: i128, available: i128 },
    DuplicateRegistration { hunt_id: u64 },
    InvalidTitle { reason: String },
    InvalidDescription { reason: String },
    InvalidAddress,
}

impl HuntError {
    /// The bare code of the failure.
    pub open spec fn code_of(self) -> HuntErrorCode {
        match self {
            HuntError::HuntNotFound { .. } => HuntErrorCode::HuntNotFound,
            HuntError::ClueNotFound { .. } => HuntErrorCode::ClueNotFound,
            HuntError::InvalidHuntStatus => HuntErrorCode::InvalidHuntStatus,
            HuntError::PlayerNotRegistered { .. } => HuntErrorCode::PlayerNotRegistered,
            HuntError::ClueAlreadyCompleted { .. } => HuntErrorCode::ClueAlreadyCompleted,
            HuntError::InvalidAnswer => HuntErrorCode::InvalidAnswer,
            HuntError::HuntNotActive { .. } => HuntErrorCode::HuntNotActive,
            HuntError::Unauthorized => HuntErrorCode::Unauthorized,
            HuntError::InsufficientRewardPool { .. } => HuntErrorCode::InsufficientRewardPool,
            HuntError::DuplicateRegistration { .. } => HuntErrorCode::DuplicateRegistration,
            HuntError::InvalidTitle { .. } => HuntErrorCode::InvalidTitle,
            HuntError::InvalidDescription { .. } => HuntErrorCode::InvalidDescription,
            HuntError::InvalidAddress => HuntErrorCode::InvalidAddress,
        }
    }

    /// The failure in words. Numbers are written in decimal; the reason of
    /// a rejected title or description stands between `String(` and `)`.
    pub open spec fn message_text(self) -> Seq<char> {
        match self {
            HuntError::HuntNotFound { hunt_id } => "Hunt not found: ID "@ + decimal(hunt_id as nat),
            HuntError::ClueNotFound { hunt_id } => "Clue not found for hunt "@ + decimal(
                hunt_id as nat,
            ),
            HuntError::InvalidHuntStatus => "Invalid hunt status"@,
            HuntError::PlayerNotRegistered { hunt_id } => "Player not registered for hunt "@
                + decimal(hunt_id as nat),
            HuntError::ClueAlreadyCompleted { hunt_id } => "Clue already completed for hunt "@
                + decimal(hunt_id as nat),
            HuntError::InvalidAnswer => "Invalid answer submitted"@,
            HuntError::HuntNotActive { hunt_id } => "Hunt not active: ID "@ + decimal(
                hunt_id as nat,
            ),
            HuntError::Unauthorized => "Unauthorized access"@,
            HuntError::InsufficientRewardPool { required, available } =>
                "Insufficient reward pool: required "@ + signed_decimal(required as int)
                    + ", available "@ + signed_decimal(available as int),
            HuntError::DuplicateRegistration { hunt_id } => "Duplicate registration for hunt "@
                + decimal(hunt_id as nat),
            HuntError::InvalidTitle { reason } => "Invalid title: String("@ + reason@ + ")"@,
            HuntError::InvalidDescription { reason } => "Invalid description: String("@ + reason@
                + ")"@,
            HuntError::InvalidAddress => "Invalid address"@,
        }
    }

    /// The failure in words.
    pub fn message(&self) -> (text: String)
        ensures
            text@ == self.message_text(),
    {
        match self {
            HuntError::HuntNotFound { hunt_id } => {
                let mut text = "Hunt not found: ID ".to_owned();
                push_decimal(&mut text, *hunt_id as u128);
                text
            },
            HuntError::ClueNotFound { hunt_id } => {
                let mut text = "Clue not found for hunt ".to_owned();
                push_decimal(&mut text, *hunt_id as u128);
                text
            },
            HuntError::InvalidHuntStatus => "Invalid hunt status".to_owned(),
            HuntError::PlayerNotRegistered { hunt_id } => {
                let mut text = "Player not registered for hunt ".to_owned();
                push_decimal(&mut text, *hunt_id as u128);
                text
            },
            HuntError::ClueAlreadyCompleted { hunt_id } => {
                let mut text = "Clue already completed for hunt ".to_owned();
                push_decimal(&mut text, *hunt_id as u128);
                text
            },
            HuntError::InvalidAnswer => "Invalid answer submitted".to_owned(),
            HuntError::HuntNotActive { hunt_id } => {
                let mut text = "Hunt not active: ID ".to_owned();
                push_decimal(&mut text, *hunt_id as u128);
                text
            },
            HuntError::Unauthorized => "Unauthorized access".to_owned(),
            HuntError::InsufficientRewardPool { required, available } => {
                let mut text = "Insufficient reward pool: required ".to_owned();
                push_signed_decimal(&mut text, *required);
                text.append(", available ");
                push_signed_decimal(&mut text, *available);
                text
            },
            HuntError::DuplicateRegistration { hunt_id } => {
                let mut text = "Duplicate registration for hunt ".to_owned();
                push_decimal(&mut text, *hunt_id as u128);
                text
            },
            HuntError::InvalidTitle { reason } => {
                let mut text = "Invalid title: String(".to_owned();
                text.append(reason.as_str());
                text.append(")");
                text
            },
            HuntError::InvalidDescription { reason } => {
                let mut text = "Invalid description: String(".to_owned();
                text.append(reason.as_str());
                text.append(")");
                text
            },
            HuntError::InvalidAddress => "Invalid address".to_owned(),
        }
    }
}

impl From<HuntError> for HuntErrorCode {
    fn from(err: HuntError) -> (code: HuntErrorCode) {
        match err {
            HuntError::HuntNotFound { .. } => HuntErrorCode::HuntNotFound,
            HuntError::ClueNotFound { .. } => HuntErrorCode::ClueNotFound,
            HuntError::InvalidHuntStatus => HuntErrorCode::InvalidHuntStatus,
            HuntError::PlayerNotRegistered { .. } => HuntErrorCode::PlayerNotRegistered,
            HuntError::ClueAlreadyCompleted { .. } => HuntErrorCode::ClueAlreadyCompleted,
            HuntError::InvalidAnswer => HuntErrorCode::InvalidAnswer,
            HuntError::HuntNotActive { .. } => HuntErrorCode::HuntNotActive,
            HuntError::Unauthorized => HuntErrorCode::Unauthorized,
            HuntError::InsufficientRewardPool { .. } => HuntErrorCode::InsufficientRewardPool,
            HuntError::DuplicateRegistration { .. } => HuntErrorCode::DuplicateRegistration,
            HuntError::InvalidTitle { .. } => HuntErrorCode::InvalidTitle,
            HuntError::InvalidDescription { .. } => HuntErrorCode::InvalidDescription,
            HuntError::InvalidAddress => HuntErrorCode::InvalidAddress,
        }
    }
}

impl FromSpecImpl<HuntError> for HuntErrorCode {
    open spec fn obeys_from_spec() -> bool {
        true
    }

    open spec fn from_spec(err: HuntError) -> HuntErrorCode {
        err.code_of()
    }
}

} // verus!
