use hunty_core::errors::{HuntError, HuntErrorCode};

#[test]
fn test_error_with_context_display() {
    let err = HuntError::HuntNotFound { hunt_id: 42 };
    let hunt_error: HuntErrorCode = err.into();
    assert_eq!(hunt_error, HuntErrorCode::HuntNotFound)
}

#[test]
fn test_hunt_not_found_message() {
    let err = HuntError::HuntNotFound { hunt_id: 42 };

    assert_eq!(err.message(), "Hunt not found: ID 42");
}

#[test]
fn test_clue_not_found_message() {
    let err = HuntError::ClueNotFound { hunt_id: 10 };

    assert_eq!(err.message(), "Clue not found for hunt 10");
}

#[test]
fn test_invalid_hunt_status_message() {
    let err = HuntError::InvalidHuntStatus;

    assert_eq!(err.message(), "Invalid hunt status");
}

#[test]
fn test_insufficient_reward_pool_message() {
    let err = HuntError::InsufficientRewardPool {
        required: 10000,
        available: 500,
    };

    assert_eq!(
        err.message(),
        "Insufficient reward pool: required 10000, available 500"
    );
}

#[test]
fn test_every_message() {
    assert_eq!(
        HuntError::PlayerNotRegistered { hunt_id: 7 }.message(),
        "Player not registered for hunt 7"
    );
    assert_eq!(
        HuntError::ClueAlreadyCompleted { hunt_id: 0 }.message(),
        "Clue already completed for hunt 0"
    );
    assert_eq!(HuntError::InvalidAnswer.message(), "Invalid answer submitted");
    assert_eq!(
        HuntError::HuntNotActive { hunt_id: 1234567890 }.message(),
        "Hunt not active: ID 1234567890"
    );
    assert_eq!(HuntError::Unauthorized.message(), "Unauthorized access");
    assert_eq!(
        HuntError::DuplicateRegistration { hunt_id: u64::MAX }.message(),
        "Duplicate registration for hunt 18446744073709551615"
    );
    assert_eq!(
        HuntError::InvalidTitle { reason: String::from("empty") }.message(),
        "Invalid title: String(empty)"
    );
    assert_eq!(
        HuntError::InvalidDescription { reason: String::from("too long") }.message(),
        "Invalid description: String(too long)"
    );
    assert_eq!(HuntError::InvalidAddress.message(), "Invalid address");
}

#[test]
fn test_message_of_signed_amounts() {
    let err = HuntError::InsufficientRewardPool { required: -1, available: 0 };
    assert_eq!(err.message(), "Insufficient reward pool: required -1, available 0");
    let err = HuntError::InsufficientRewardPool { required: i128::MIN, available: i128::MAX };
    assert_eq!(
        err.message(),
        format!(
            "Insufficient reward pool: required {}, available {}",
            i128::MIN,
            i128::MAX
        )
    );
    assert_eq!(
        err.message(),
        "Insufficient reward pool: required -170141183460469231731687303715884105728, available 170141183460469231731687303715884105727"
    );
}

#[test]
fn test_every_error_has_its_code() {
    let pairs = vec![
        (HuntError::HuntNotFound { hunt_id: 1 }, HuntErrorCode::HuntNotFound, 1u32),
        (HuntError::ClueNotFound { hunt_id: 1 }, HuntErrorCode::ClueNotFound, 2),
        (HuntError::InvalidHuntStatus, HuntErrorCode::InvalidHuntStatus, 3),
        (HuntError::PlayerNotRegistered { hunt_id: 1 }, HuntErrorCode::PlayerNotRegistered, 4),
        (HuntError::ClueAlreadyCompleted { hunt_id: 1 }, HuntErrorCode::ClueAlreadyCompleted, 5),
        (HuntError::InvalidAnswer, HuntErrorCode::InvalidAnswer, 6),
        (HuntError::HuntNotActive { hunt_id: 1 }, HuntErrorCode::HuntNotActive, 7),
        (HuntError::Unauthorized, HuntErrorCode::Unauthorized, 8),
        (
            HuntError::InsufficientRewardPool { required: 2, available: 1 },
            HuntErrorCode::InsufficientRewardPool,
            9,
        ),
        (HuntError::DuplicateRegistration { hunt_id: 1 }, HuntErrorCode::DuplicateRegistration, 10),
        (HuntError::InvalidTitle { reason: String::new() }, HuntErrorCode::InvalidTitle, 11),
        (
            HuntError::InvalidDescription { reason: String::new() },
            HuntErrorCode::InvalidDescription,
            12,
        ),
        (HuntError::InvalidAddress, HuntErrorCode::InvalidAddress, 13),
    ];
    for (err, code, number) in pairs {
        assert_eq!(HuntErrorCode::from(err), code);
        assert_eq!(code.code(), number);
        assert_eq!(HuntErrorCode::from_code(number), Some(code));
    }
    assert_eq!(HuntErrorCode::NoCluesAdded.code(), 14);
    assert_eq!(HuntErrorCode::from_code(14), Some(HuntErrorCode::NoCluesAdded));
    assert_eq!(HuntErrorCode::from_code(0), None);
    assert_eq!(HuntErrorCode::from_code(15), None);
}

#[test]
fn test_decimal_digits() {
    let mut out = String::from("n=");
    hunty_core::text::push_decimal(&mut out, 0);
    assert_eq!(out, "n=0");
    let mut out = String::new();
    hunty_core::text::push_decimal(&mut out, 9);
    hunty_core::text::push_decimal(&mut out, 10);
    hunty_core::text::push_decimal(&mut out, 907);
    assert_eq!(out, "910907");
    let mut out = String::new();
    hunty_core::text::push_decimal(&mut out, u128::MAX);
    assert_eq!(out, u128::MAX.to_string());
    let mut out = String::new();
    hunty_core::text::push_signed_decimal(&mut out, -45);
    hunty_core::text::push_signed_decimal(&mut out, 45);
    assert_eq!(out, "-4545");
}

#[test]
fn test_text_len_counts_bytes() {
    assert_eq!(hunty_core::text::text_len(&String::new()), 0);
    assert_eq!(hunty_core::text::text_len(&String::from("abc")), 3);
    assert_eq!(hunty_core::text::text_len(&String::from("é")), 2);
    assert_eq!(hunty_core::text::text_len(&String::from("日本")), 6);
}
