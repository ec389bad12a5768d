use hunty_core::errors::HuntErrorCode;
use hunty_core::lifecycle::{check_hunt_text, HuntyCore};
use hunty_core::types::{Address, HuntEvent, HuntStatus};

fn creator_address() -> Address {
    Address::from_str("GCREATORAAAAAAAAAAAAAAAAAAAAAAAAAAAAAAAAAAAAAAAAAAAAAAAA")
}

fn other_address() -> Address {
    Address::from_str("GOTHERAAAAAAAAAAAAAAAAAAAAAAAAAAAAAAAAAAAAAAAAAAAAAAAAAAA")
}

#[test]
fn test_create_hunt_success() {
    let mut core = HuntyCore::new();
    let now = 1_700_000_000;
    let creator = creator_address();
    let title = String::from("Test Hunt");
    let description = String::from("This is a test hunt description");

    let hunt_id = core
        .create_hunt(creator.clone(), title.clone(), description.clone(), None, None, now)
        .unwrap();
    let hunt = core.storage.get_hunt(hunt_id).unwrap();

    // Verify hunt ID is 1 (first hunt)
    assert_eq!(hunt_id, 1);
    assert_eq!(hunt.hunt_id, hunt_id);
    assert_eq!(hunt.creator, creator);
    assert_eq!(hunt.title, title);
    assert_eq!(hunt.description, description);
    assert_eq!(hunt.status, HuntStatus::Draft);
    assert_eq!(hunt.total_clues, 0);
    assert_eq!(hunt.required_clues, 0);
    assert_eq!(hunt.reward_config.xlm_pool, 0);
    assert_eq!(hunt.reward_config.nft_enabled, false);
    assert_eq!(hunt.reward_config.max_winners, 0);
    assert_eq!(hunt.reward_config.claimed_count, 0);
    assert!(hunt.created_at > 0);
    assert_eq!(hunt.activated_at, 0);
    assert_eq!(hunt.end_time, 0);
}

#[test]
fn test_create_hunt_with_end_time() {
    let mut core = HuntyCore::new();
    let now = 1_700_000_000;
    let creator = creator_address();
    let title = String::from("Timed Hunt");
    let description = String::from("A hunt with an end time");
    let end_time = 1000000u64;

    let hunt_id = core
        .create_hunt(creator.clone(), title.clone(), description.clone(), None, Some(end_time), now)
        .unwrap();
    let hunt = core.storage.get_hunt(hunt_id).unwrap();
    assert_eq!(hunt.end_time, end_time);
}

#[test]
fn test_create_hunt_empty_title() {
    let mut core = HuntyCore::new();
    let now = 1_700_000_000;
    let creator = creator_address();
    let title = String::from("");
    let description = String::from("Valid description");

    let result = core.create_hunt(creator, title, description, None, None, now);

    assert_eq!(result, Err(HuntErrorCode::InvalidTitle));
}

#[test]
fn test_create_hunt_title_too_long() {
    let mut core = HuntyCore::new();
    let now = 1_700_000_000;
    let creator = creator_address();
    // Create a title longer than 200 characters
    let long_title = "a".repeat(201);
    let description = String::from("Valid description");

    let result = core.create_hunt(creator, long_title, description, None, None, now);

    assert_eq!(result, Err(HuntErrorCode::InvalidTitle));
}

#[test]
fn test_create_hunt_title_exactly_max_length() {
    let mut core = HuntyCore::new();
    let now = 1_700_000_000;
    let creator = creator_address();
    // Create a title exactly 200 characters (should be valid)
    let title = "a".repeat(200);
    let description = String::from("Valid description");

    let result = core.create_hunt(creator, title, description, None, None, now);

    assert!(result.is_ok());
}

#[test]
fn test_create_hunt_description_too_long() {
    let mut core = HuntyCore::new();
    let now = 1_700_000_000;
    let creator = creator_address();
    let title = String::from("Valid Title");
    // Create a description longer than 2000 characters
    let long_description = "a".repeat(2001);

    let result = core.create_hunt(creator, title, long_description, None, None, now);

    assert_eq!(result, Err(HuntErrorCode::InvalidDescription));
}

#[test]
fn test_create_hunt_description_exactly_max_length() {
    let mut core = HuntyCore::new();
    let now = 1_700_000_000;
    let creator = creator_address();
    let title = String::from("Valid Title");
    // Create a description exactly 2000 characters (should be valid)
    let description = "a".repeat(2000);

    let result = core.create_hunt(creator, title, description, None, None, now);

    assert!(result.is_ok());
}

#[test]
fn test_create_hunt_unique_ids() {
    let mut core = HuntyCore::new();
    let now = 1_700_000_000;
    let creator = creator_address();
    let title1 = String::from("Hunt 1");
    let title2 = String::from("Hunt 2");
    let title3 = String::from("Hunt 3");
    let description = String::from("Description");

    let hunt_id1 = core
        .create_hunt(creator.clone(), title1, description.clone(), None, None, now)
        .unwrap();
    let hunt_id2 = core
        .create_hunt(creator.clone(), title2, description.clone(), None, None, now)
        .unwrap();
    let hunt_id3 = core
        .create_hunt(creator.clone(), title3, description, None, None, now)
        .unwrap();

    // Verify IDs are unique and sequential
    assert_eq!(hunt_id1, 1);
    assert_eq!(hunt_id2, 2);
    assert_eq!(hunt_id3, 3);
    assert_ne!(hunt_id1, hunt_id2);
    assert_ne!(hunt_id2, hunt_id3);
    assert_eq!(core.storage.get_hunt_counter(), 3);
}

#[test]
fn test_create_hunt_different_creators() {
    let mut core = HuntyCore::new();
    let now = 1_700_000_000;
    let creator1 = creator_address();
    let creator2 = other_address();
    let title = String::from("Test Hunt");
    let description = String::from("Description");

    let hunt_id1 = core
        .create_hunt(creator1.clone(), title.clone(), description.clone(), None, None, now)
        .unwrap();
    let hunt_id2 = core
        .create_hunt(creator2.clone(), title, description, None, None, now)
        .unwrap();
    let hunt1 = core.storage.get_hunt(hunt_id1).unwrap();
    let hunt2 = core.storage.get_hunt(hunt_id2).unwrap();

    assert_eq!(hunt1.creator, creator1);
    assert_eq!(hunt2.creator, creator2);
    assert_ne!(hunt1.creator, hunt2.creator);
}

#[test]
fn test_create_hunt_counter_increments() {
    let mut core = HuntyCore::new();
    let now = 1_700_000_000;
    let creator = creator_address();
    let title = String::from("Test Hunt");
    let description = String::from("Description");

    // Verify counter starts at 0
    let start_counter = core.storage.get_hunt_counter();

    // Create first hunt
    let hunt_id1 = core
        .create_hunt(creator.clone(), title.clone(), description.clone(), None, None, now)
        .unwrap();

    // Counter should be 1 after first hunt
    let counter_after_1 = core.storage.get_hunt_counter();

    // Create second hunt
    let hunt_id2 = core
        .create_hunt(creator.clone(), title, description, None, None, now)
        .unwrap();

    // Counter should be 2 after second hunt
    let counter_after_2 = core.storage.get_hunt_counter();

    assert_eq!(start_counter, 0);
    assert_eq!(counter_after_1, 1);
    assert_eq!(hunt_id1, 1);
    assert_eq!(counter_after_2, 2);
    assert_eq!(hunt_id2, 2);
}

#[test]
fn test_create_hunt_default_reward_config() {
    let mut core = HuntyCore::new();
    let now = 1_700_000_000;
    let creator = creator_address();
    let title = String::from("Test Hunt");
    let description = String::from("Description");

    let hunt_id = core.create_hunt(creator, title, description, None, None, now).unwrap();
    let hunt = core.storage.get_hunt(hunt_id).unwrap();
    let reward_config = hunt.reward_config;

    // Verify default reward config values
    assert_eq!(reward_config.xlm_pool, 0);
    assert_eq!(reward_config.nft_enabled, false);
    assert_eq!(reward_config.nft_contract, None);
    assert_eq!(reward_config.max_winners, 0);
    assert_eq!(reward_config.claimed_count, 0);
}

#[test]
fn test_create_hunt_created_at_timestamp() {
    let mut core = HuntyCore::new();
    let now = 1_700_000_000;
    let creator = creator_address();
    let title = String::from("Test Hunt");
    let description = String::from("Description");

    let hunt_id = core.create_hunt(creator, title, description, None, None, now).unwrap();
    let hunt = core.storage.get_hunt(hunt_id).unwrap();
    let current_time = now;

    // Created timestamp should be set and reasonable (within a few seconds)
    assert!(hunt.created_at > 0);
    assert!(hunt.created_at <= current_time);
    // Allow some small time difference for test execution
    assert!(current_time - hunt.created_at < 10);
}

#[test]
fn test_activate_hunt_success() {
    let mut core = HuntyCore::new();
    let now = 1_700_000_100;

    let creator = creator_address();
    let title = String::from("Test Hunt");
    let description = String::from("Test description");

    // Create hunt
    let hunt_id = core
        .create_hunt(creator.clone(), title, description, None, None, now)
        .unwrap();

    // Manually add at least one clue
    core.storage.increment_total_clues(hunt_id);

    // Activate hunt (creator is invoker)
    core.activate_hunt(hunt_id, &creator, now).unwrap();

    let hunt = core.storage.get_hunt(hunt_id).unwrap();

    assert_eq!(hunt.status, HuntStatus::Active);
    assert!(hunt.activated_at > 0);
}

#[test]
fn test_activate_hunt_not_found() {
    let mut core = HuntyCore::new();
    let creator = creator_address();

    let err = core.activate_hunt(999, &creator, 0).unwrap_err();
    assert_eq!(err, HuntErrorCode::HuntNotFound);
}

#[test]
fn test_activate_hunt_unauthorized() {
    let mut core = HuntyCore::new();
    let creator = creator_address();
    let attacker = other_address();

    let title = String::from("Test Hunt");
    let description = String::from("Test description");

    let hunt_id = core
        .create_hunt(creator.clone(), title, description, None, None, 0)
        .unwrap();

    core.storage.increment_total_clues(hunt_id);

    // Invoker is NOT creator
    let err = core.activate_hunt(hunt_id, &attacker, 0).unwrap_err();
    assert_eq!(err, HuntErrorCode::Unauthorized);
}

#[test]
fn test_activate_hunt_no_clues() {
    let mut core = HuntyCore::new();
    let creator = creator_address();

    let title = String::from("Test Hunt");
    let description = String::from("Test description");

    let hunt_id = core
        .create_hunt(creator.clone(), title, description, None, None, 0)
        .unwrap();

    let err = core.activate_hunt(hunt_id, &creator, 0).unwrap_err();
    assert_eq!(err, HuntErrorCode::NoCluesAdded);
}

fn core_with_hunt(clues: u32) -> (HuntyCore, u64) {
    let mut core = HuntyCore::new();
    let hunt_id = core
        .create_hunt(
            creator_address(),
            String::from("Harbour walk"),
            String::from("Seven stops along the quay"),
            None,
            Some(2_000),
            1_000,
        )
        .unwrap();
    for _ in 0..clues {
        assert!(core.storage.increment_total_clues(hunt_id));
    }
    (core, hunt_id)
}

#[test]
fn test_rejected_text_writes_nothing() {
    let mut core = HuntyCore::new();
    let attempts = vec![
        (String::new(), String::from("fine"), HuntErrorCode::InvalidTitle),
        ("t".repeat(201), String::from("fine"), HuntErrorCode::InvalidTitle),
        (String::from("fine"), "d".repeat(2001), HuntErrorCode::InvalidDescription),
        // The title is judged before the description.
        (String::new(), "d".repeat(2001), HuntErrorCode::InvalidTitle),
    ];
    for (title, description, code) in attempts {
        let result = core.create_hunt(creator_address(), title, description, None, None, 5);
        assert_eq!(result, Err(code));
        assert_eq!(core.storage.get_hunt_counter(), 0);
        assert!(core.storage.get_hunt(1).is_none());
        assert!(core.events.is_empty());
    }
    // The next hunt still gets the first identifier.
    let hunt_id = core
        .create_hunt(creator_address(), String::from("t"), String::new(), None, None, 5)
        .unwrap();
    assert_eq!(hunt_id, 1);
}

#[test]
fn test_length_is_counted_in_bytes() {
    let mut core = HuntyCore::new();
    // 100 letters of two bytes each fill the title; one byte more is too much.
    let title = "é".repeat(100);
    assert_eq!(title.len(), 200);
    assert_eq!(
        core.create_hunt(creator_address(), title.clone(), String::new(), None, None, 5),
        Ok(1)
    );
    let longer = format!("{}a", title);
    assert_eq!(
        core.create_hunt(creator_address(), longer, String::new(), None, None, 5),
        Err(HuntErrorCode::InvalidTitle)
    );
}

#[test]
fn test_creation_is_made_known() {
    let (mut core, hunt_id) = core_with_hunt(0);
    let events = core.take_events();
    assert_eq!(events.len(), 1);
    match &events[0] {
        HuntEvent::Created(event) => {
            assert_eq!(event.hunt_id, hunt_id);
            assert_eq!(event.creator, creator_address());
            assert_eq!(event.title, "Harbour walk");
        }
        other => panic!("unexpected event {:?}", other),
    }
    assert!(core.events.is_empty());
    assert!(core.take_events().is_empty());
    // The store is untouched by the handing over.
    assert_eq!(core.storage.get_hunt(hunt_id).unwrap().title, "Harbour walk");
}

#[test]
fn test_activation_checks_come_in_order() {
    let (mut core, hunt_id) = core_with_hunt(0);
    let creator = creator_address();
    let stranger = other_address();
    // A missing hunt is reported before the caller is judged.
    assert_eq!(core.activate_hunt(hunt_id + 1, &stranger, 1), Err(HuntErrorCode::HuntNotFound));
    // The caller is judged before the clues are counted.
    assert_eq!(core.activate_hunt(hunt_id, &stranger, 1), Err(HuntErrorCode::Unauthorized));
    assert_eq!(core.activate_hunt(hunt_id, &creator, 1), Err(HuntErrorCode::NoCluesAdded));
    // The status is judged before the clues are counted.
    assert_eq!(core.cancel_hunt(hunt_id, &creator), Ok(()));
    assert_eq!(core.activate_hunt(hunt_id, &creator, 1), Err(HuntErrorCode::InvalidHuntStatus));
    assert_eq!(core.activate_hunt(hunt_id, &stranger, 1), Err(HuntErrorCode::Unauthorized));
}

#[test]
fn test_failed_step_leaves_hunt_and_events() {
    let (mut core, hunt_id) = core_with_hunt(1);
    core.take_events();
    let before = core.storage.get_hunt(hunt_id).unwrap();
    assert_eq!(core.deactivate_hunt(hunt_id, &creator_address()), Err(HuntErrorCode::InvalidHuntStatus));
    assert_eq!(core.activate_hunt(hunt_id, &other_address(), 77), Err(HuntErrorCode::Unauthorized));
    assert_eq!(core.cancel_hunt(hunt_id, &other_address()), Err(HuntErrorCode::Unauthorized));
    let after = core.storage.get_hunt(hunt_id).unwrap();
    assert_eq!(after.status, before.status);
    assert_eq!(after.activated_at, before.activated_at);
    assert!(core.events.is_empty());
}

#[test]
fn test_activate_then_deactivate_keeps_activation_time() {
    let (mut core, hunt_id) = core_with_hunt(2);
    let creator = creator_address();
    core.take_events();
    assert_eq!(core.activate_hunt(hunt_id, &creator, 1_500), Ok(()));
    let hunt = core.storage.get_hunt(hunt_id).unwrap();
    assert_eq!(hunt.status, HuntStatus::Active);
    assert_eq!(hunt.activated_at, 1_500);
    assert_eq!(hunt.created_at, 1_000);
    assert_eq!(hunt.total_clues, 2);
    // A second activation is refused: the hunt is no draft.
    assert_eq!(core.activate_hunt(hunt_id, &creator, 1_600), Err(HuntErrorCode::InvalidHuntStatus));

    assert_eq!(core.deactivate_hunt(hunt_id, &creator), Ok(()));
    let hunt = core.storage.get_hunt(hunt_id).unwrap();
    assert_eq!(hunt.status, HuntStatus::Draft);
    assert_eq!(hunt.activated_at, 1_500);

    assert_eq!(core.activate_hunt(hunt_id, &creator, 1_700), Ok(()));
    assert_eq!(core.storage.get_hunt(hunt_id).unwrap().activated_at, 1_700);

    let events = core.take_events();
    assert_eq!(events.len(), 3);
    match (&events[0], &events[1], &events[2]) {
        (HuntEvent::Activated(first), HuntEvent::Deactivated(second), HuntEvent::Activated(third)) => {
            assert_eq!((first.hunt_id, first.activated_at), (hunt_id, 1_500));
            assert_eq!(second.hunt_id, hunt_id);
            assert_eq!((third.hunt_id, third.activated_at), (hunt_id, 1_700));
        }
        other => panic!("unexpected events {:?}", other),
    }
}

#[test]
fn test_deactivate_hunt_failures() {
    let (mut core, hunt_id) = core_with_hunt(1);
    let creator = creator_address();
    assert_eq!(core.deactivate_hunt(404, &creator), Err(HuntErrorCode::HuntNotFound));
    assert_eq!(core.deactivate_hunt(hunt_id, &other_address()), Err(HuntErrorCode::Unauthorized));
    assert_eq!(core.deactivate_hunt(hunt_id, &creator), Err(HuntErrorCode::InvalidHuntStatus));
}

#[test]
fn test_cancel_draft_and_active() {
    // A draft is cancelled.
    let (mut core, hunt_id) = core_with_hunt(0);
    let creator = creator_address();
    assert_eq!(core.cancel_hunt(hunt_id, &creator), Ok(()));
    assert_eq!(core.storage.get_hunt(hunt_id).unwrap().status, HuntStatus::Cancelled);

    // An active hunt is cancelled.
    let (mut core, hunt_id) = core_with_hunt(1);
    core.activate_hunt(hunt_id, &creator, 1_200).unwrap();
    core.take_events();
    assert_eq!(core.cancel_hunt(hunt_id, &creator), Ok(()));
    let hunt = core.storage.get_hunt(hunt_id).unwrap();
    assert_eq!(hunt.status, HuntStatus::Cancelled);
    assert_eq!(hunt.activated_at, 1_200);
    let events = core.take_events();
    assert_eq!(events.len(), 1);
    match &events[0] {
        HuntEvent::Cancelled(event) => assert_eq!(event.hunt_id, hunt_id),
        other => panic!("unexpected event {:?}", other),
    }
}

#[test]
fn test_cancelled_is_terminal() {
    let (mut core, hunt_id) = core_with_hunt(1);
    let creator = creator_address();
    core.cancel_hunt(hunt_id, &creator).unwrap();
    assert_eq!(core.cancel_hunt(hunt_id, &creator), Err(HuntErrorCode::InvalidHuntStatus));
    assert_eq!(core.activate_hunt(hunt_id, &creator, 9), Err(HuntErrorCode::InvalidHuntStatus));
    assert_eq!(core.deactivate_hunt(hunt_id, &creator), Err(HuntErrorCode::InvalidHuntStatus));
    assert_eq!(core.storage.get_hunt(hunt_id).unwrap().status, HuntStatus::Cancelled);
}

#[test]
fn test_cancel_hunt_failures() {
    let (mut core, hunt_id) = core_with_hunt(1);
    let creator = creator_address();
    assert_eq!(core.cancel_hunt(404, &creator), Err(HuntErrorCode::HuntNotFound));
    assert_eq!(core.cancel_hunt(hunt_id, &other_address()), Err(HuntErrorCode::Unauthorized));
    // A completed hunt is not cancelled.
    let mut hunt = core.storage.get_hunt(hunt_id).unwrap();
    hunt.status = HuntStatus::Completed;
    core.storage.save_hunt(&hunt);
    assert_eq!(core.cancel_hunt(hunt_id, &creator), Err(HuntErrorCode::InvalidHuntStatus));
    assert_eq!(core.storage.get_hunt(hunt_id).unwrap().status, HuntStatus::Completed);
}

#[test]
fn test_entity_steps() {
    let (core, hunt_id) = core_with_hunt(1);
    let mut hunt = core.storage.get_hunt(hunt_id).unwrap();
    assert_eq!(hunt.activate(&other_address(), 3), Err(HuntErrorCode::Unauthorized));
    assert_eq!(hunt.status, HuntStatus::Draft);
    assert_eq!(hunt.activate(&creator_address(), 3), Ok(()));
    assert_eq!((hunt.status, hunt.activated_at), (HuntStatus::Active, 3));
    assert_eq!(hunt.deactivate(&creator_address()), Ok(()));
    assert_eq!((hunt.status, hunt.activated_at), (HuntStatus::Draft, 3));
    assert_eq!(hunt.cancel(&creator_address()), Ok(()));
    assert_eq!(hunt.status, HuntStatus::Cancelled);
    assert_eq!(hunt.cancel(&creator_address()), Err(HuntErrorCode::InvalidHuntStatus));
}

#[test]
fn test_check_hunt_text() {
    assert_eq!(check_hunt_text(&String::from("a"), &String::new()), Ok(()));
    assert_eq!(check_hunt_text(&"a".repeat(200), &"b".repeat(2000)), Ok(()));
    assert_eq!(check_hunt_text(&String::new(), &String::new()), Err(HuntErrorCode::InvalidTitle));
    assert_eq!(
        check_hunt_text(&"a".repeat(201), &String::new()),
        Err(HuntErrorCode::InvalidTitle)
    );
    assert_eq!(
        check_hunt_text(&String::from("a"), &"b".repeat(2001)),
        Err(HuntErrorCode::InvalidDescription)
    );
}
