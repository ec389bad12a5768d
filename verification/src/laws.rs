//! What holds of the hunts and of the store, whatever is asked of them.

use crate::errors::HuntErrorCode;
use crate::lifecycle::{
    activate_hunt_spec, activated, cancel_hunt_spec, cancelled, create_hunt_spec,
    deactivate_hunt_spec, deactivated, description_valid, draft_hunt, holds_hunt, ids_handed_out,
    title_valid, CoreView,
};
use crate::storage::{
    clue_ids_of, consistent, counter_of, holds_clue, holds_progress, hunt_of, lemma_push_absent,
    lists_clue, lists_player, players_of, well_formed, with_clue, with_progress, KeyView,
    RecordView,
};
use crate::types::{ClueView, HuntStatus, HuntView, PlayerProgressView};
use vstd::prelude::*;

verus! {

/// A hunt whose title and description are of valid length is created: the
/// answer is the next identifier, and the store holds under it a draft
/// without clues and with an empty pool.
pub proof fn law_valid_text_creates_a_draft(
    before: CoreView,
    creator: Seq<char>,
    title: Seq<char>,
    description: Seq<char>,
    end_time: Option<u64>,
    now: u64,
)
    requires
        title_valid(title),
        description_valid(description),
        counter_of(before.storage) < u64::MAX,
    ensures
        ({
            let (after, answer) = create_hunt_spec(
                before,
                creator,
                title,
                description,
                end_time,
                now,
            );
            let hunt_id = (counter_of(before.storage) + 1) as u64;
            &&& answer == Ok::<u64, HuntErrorCode>(hunt_id)
            &&& counter_of(after.storage) == hunt_id
            &&& hunt_of(after.storage, hunt_id) == Some(
                draft_hunt(hunt_id, creator, title, description, end_time, now),
            )
            &&& hunt_of(after.storage, hunt_id).unwrap().status == HuntStatus::Draft
            &&& hunt_of(after.storage, hunt_id).unwrap().total_clues == 0
            &&& hunt_of(after.storage, hunt_id).unwrap().reward_config.xlm_pool == 0
        }),
{
}

/// A hunt whose title is empty or too long, or whose description is too
/// long, is not created: the answer is the failure of the title, or else
/// that of the description, and nothing is written; the counter stays.
pub proof fn law_rejected_text_writes_nothing(
    before: CoreView,
    creator: Seq<char>,
    title: Seq<char>,
    description: Seq<char>,
    end_time: Option<u64>,
    now: u64,
)
    requires
        !title_valid(title) || !description_valid(description),
    ensures
        ({
            let (after, answer) = create_hunt_spec(
                before,
                creator,
                title,
                description,
                end_time,
                now,
            );
            &&& after == before
            &&& counter_of(after.storage) == counter_of(before.storage)
            &&& !title_valid(title) ==> answer == Err::<u64, HuntErrorCode>(
                HuntErrorCode::InvalidTitle,
            )
            &&& title_valid(title) ==> answer == Err::<u64, HuntErrorCode>(
                HuntErrorCode::InvalidDescription,
            )
        }),
{
}

/// A hunt that is created takes the place of no other: its identifier was
/// held by none, every other hunt is as it was, and every hunt still has
/// an identifier that was handed out.
pub proof fn law_created_identifier_is_fresh(
    before: CoreView,
    creator: Seq<char>,
    title: Seq<char>,
    description: Seq<char>,
    end_time: Option<u64>,
    now: u64,
)
    requires
        ids_handed_out(before.storage),
        title_valid(title),
        description_valid(description),
        counter_of(before.storage) < u64::MAX,
    ensures
        ({
            let (after, answer) = create_hunt_spec(
                before,
                creator,
                title,
                description,
                end_time,
                now,
            );
            let hunt_id = (counter_of(before.storage) + 1) as u64;
            &&& !holds_hunt(before.storage, hunt_id)
            &&& hunt_of(before.storage, hunt_id) is None
            &&& forall|other: u64|
                other != hunt_id ==> #[trigger] hunt_of(after.storage, other) == hunt_of(
                    before.storage,
                    other,
                )
            &&& ids_handed_out(after.storage)
        }),
{
    let after = create_hunt_spec(before, creator, title, description, end_time, now).0;
    let hunt_id = (counter_of(before.storage) + 1) as u64;
    assert forall|id: u64| #[trigger] holds_hunt(after.storage, id) implies 1 <= id <= counter_of(
        after.storage,
    ) by {
        if id != hunt_id {
            assert(holds_hunt(before.storage, id));
        }
    }
}

/// What is asked for when a hunt is created.
pub struct HuntRequest {
    pub creator: Seq<char>,
    pub title: Seq<char>,
    pub description: Seq<char>,
    pub end_time: Option<u64>,
    pub now: u64,
}

impl HuntRequest {
    /// The title and the description are of valid length.
    pub open spec fn valid(self) -> bool {
        title_valid(self.title) && description_valid(self.description)
    }

    /// The controller and the answer after this request.
    pub open spec fn serve(self, before: CoreView) -> (CoreView, Result<u64, HuntErrorCode>) {
        create_hunt_spec(
            before,
            self.creator,
            self.title,
            self.description,
            self.end_time,
            self.now,
        )
    }
}

/// The controller after `requests` have been served one after the other.
pub open spec fn after_requests(before: CoreView, requests: Seq<HuntRequest>) -> CoreView
    decreases requests.len(),
{
    if requests.len() == 0 {
        before
    } else {
        requests.last().serve(after_requests(before, requests.drop_last())).0
    }
}

/// The answer to the request `i` of `requests`, served one after the other.
pub open spec fn answer_to(before: CoreView, requests: Seq<HuntRequest>, i: int) -> Result<
    u64,
    HuntErrorCode,
> {
    requests[i].serve(after_requests(before, requests.take(i))).1
}

/// Valid requests served one after the other are answered with
/// identifiers that count up by one from the counter, without a gap, and
/// the counter ends at the last of them. From an empty store they are 1,
/// 2, 3 and so on.
pub proof fn law_identifiers_count_up(before: CoreView, requests: Seq<HuntRequest>)
    requires
        forall|i: int| 0 <= i < requests.len() ==> (#[trigger] requests[i]).valid(),
        counter_of(before.storage) + requests.len() <= u64::MAX,
    ensures
        counter_of(after_requests(before, requests).storage) == counter_of(before.storage)
            + requests.len(),
        forall|i: int|
            0 <= i < requests.len() ==> #[trigger] answer_to(before, requests, i) == Ok::<
                u64,
                HuntErrorCode,
            >((counter_of(before.storage) + i + 1) as u64),
    decreases requests.len(),
{
    if requests.len() > 0 {
        let earlier = requests.drop_last();
        law_identifiers_count_up(before, earlier);
        assert forall|i: int| 0 <= i < requests.len() implies #[trigger] answer_to(
            before,
            requests,
            i,
        ) == Ok::<u64, HuntErrorCode>((counter_of(before.storage) + i + 1) as u64) by {
            if i < earlier.len() {
                assert(requests.take(i) =~= earlier.take(i));
                assert(answer_to(before, requests, i) == answer_to(before, earlier, i));
            }
        }
    }
}

/// A hunt without clues is not opened, whoever asks. The creator of a
/// draft is told that clues are missing.
pub proof fn law_no_clues_no_activation(hunt: HuntView, caller: Seq<char>, now: u64)
    requires
        hunt.total_clues == 0,
    ensures
        activated(hunt, caller, now) is Err,
        caller == hunt.creator && hunt.status == HuntStatus::Draft ==> activated(hunt, caller, now)
            == Err::<HuntView, HuntErrorCode>(HuntErrorCode::NoCluesAdded),
{
}

/// A draft with a clue is opened by its creator: it is active from `now`
/// on, and nothing else of it changes.
pub proof fn law_creator_opens_a_draft_with_clues(hunt: HuntView, now: u64)
    requires
        hunt.status == HuntStatus::Draft,
        hunt.total_clues > 0,
    ensures
        activated(hunt, hunt.creator, now) == Ok::<HuntView, HuntErrorCode>(
            HuntView { status: HuntStatus::Active, activated_at: now, ..hunt },
        ),
{
}

/// Nobody but the creator opens a hunt, whatever else holds of it.
pub proof fn law_stranger_cannot_activate(hunt: HuntView, caller: Seq<char>, now: u64)
    requires
        caller != hunt.creator,
    ensures
        activated(hunt, caller, now) == Err::<HuntView, HuntErrorCode>(
            HuntErrorCode::Unauthorized,
        ),
{
}

/// The store is asked before the hunt: a hunt that the store holds is
/// judged as the three steps say, a failed step writes nothing and tells
/// nothing, and a hunt that the store does not hold is reported missing.
pub proof fn law_steps_judge_the_stored_hunt(
    before: CoreView,
    hunt_id: u64,
    caller: Seq<char>,
    now: u64,
)
    ensures
        hunt_of(before.storage, hunt_id) is None ==> {
            &&& activate_hunt_spec(before, hunt_id, caller, now) == (
                before,
                Err::<(), HuntErrorCode>(HuntErrorCode::HuntNotFound),
            )
            &&& deactivate_hunt_spec(before, hunt_id, caller) == (
                before,
                Err::<(), HuntErrorCode>(HuntErrorCode::HuntNotFound),
            )
            &&& cancel_hunt_spec(before, hunt_id, caller) == (
                before,
                Err::<(), HuntErrorCode>(HuntErrorCode::HuntNotFound),
            )
        },
        hunt_of(before.storage, hunt_id) matches Some(hunt) ==> {
            &&& activated(hunt, caller, now) matches Err(code) ==> activate_hunt_spec(
                before,
                hunt_id,
                caller,
                now,
            ) == (before, Err::<(), HuntErrorCode>(code))
            &&& activated(hunt, caller, now) is Ok ==> activate_hunt_spec(
                before,
                hunt_id,
                caller,
                now,
            ).1 is Ok
            &&& deactivated(hunt, caller) matches Err(code) ==> deactivate_hunt_spec(
                before,
                hunt_id,
                caller,
            ) == (before, Err::<(), HuntErrorCode>(code))
            &&& deactivated(hunt, caller) is Ok ==> deactivate_hunt_spec(
                before,
                hunt_id,
                caller,
            ).1 is Ok
            &&& cancelled(hunt, caller) matches Err(code) ==> cancel_hunt_spec(
                before,
                hunt_id,
                caller,
            ) == (before, Err::<(), HuntErrorCode>(code))
            &&& cancelled(hunt, caller) is Ok ==> cancel_hunt_spec(before, hunt_id, caller).1 is Ok
        },
{
}

/// A step that succeeds saves the hunt under its own identifier, so the
/// store then holds the hunt as the step left it.
pub proof fn law_steps_save_the_hunt(before: CoreView, hunt_id: u64, caller: Seq<char>, now: u64)
    requires
        well_formed(before.storage),
    ensures
        hunt_of(before.storage, hunt_id) matches Some(hunt) ==> {
            &&& activated(hunt, caller, now) matches Ok(changed) ==> hunt_of(
                activate_hunt_spec(before, hunt_id, caller, now).0.storage,
                hunt_id,
            ) == Some(changed)
            &&& deactivated(hunt, caller) matches Ok(changed) ==> hunt_of(
                deactivate_hunt_spec(before, hunt_id, caller).0.storage,
                hunt_id,
            ) == Some(changed)
            &&& cancelled(hunt, caller) matches Ok(changed) ==> hunt_of(
                cancel_hunt_spec(before, hunt_id, caller).0.storage,
                hunt_id,
            ) == Some(changed)
        },
{
}

/// A step changes the status of a hunt, and the time of activation when
/// the hunt is opened; the identifier, the creator, the texts, the times of
/// creation and of closing, the prize and the clues stay as they are.
pub proof fn law_steps_change_the_status_only(hunt: HuntView, caller: Seq<char>, now: u64)
    ensures
        activated(hunt, caller, now) matches Ok(changed) ==> changed == (HuntView {
            status: HuntStatus::Active,
            activated_at: now,
            ..hunt
        }),
        deactivated(hunt, caller) matches Ok(changed) ==> changed == (HuntView {
            status: HuntStatus::Draft,
            ..hunt
        }),
        cancelled(hunt, caller) matches Ok(changed) ==> changed == (HuntView {
            status: HuntStatus::Cancelled,
            ..hunt
        }),
        activated(hunt, caller, now) is Ok || deactivated(hunt, caller) is Ok || cancelled(
            hunt,
            caller,
        ) is Ok ==> caller == hunt.creator,
{
}

/// A clue that is completed a second time changes nothing: the score and
/// the list of completed clues are as after the first time, whatever the
/// points named the second time.
pub proof fn law_complete_clue_is_idempotent(
    progress: PlayerProgressView,
    clue_id: u32,
    points: u32,
    points_again: u32,
)
    ensures
        progress.complete_clue(clue_id, points).complete_clue(clue_id, points_again)
            == progress.complete_clue(clue_id, points),
        progress.complete_clue(clue_id, points).has_completed_clue(clue_id),
{
    let once = progress.complete_clue(clue_id, points);
    if !progress.has_completed_clue(clue_id) {
        assert(once.completed_clues[progress.completed_clues.len() as int] == clue_id);
    }
}

/// One completion: a clue, and the points that it is worth.
pub struct Completion {
    pub clue_id: u32,
    pub points: u32,
}

/// The record after the completions `steps`, one after the other.
pub open spec fn after_completions(
    progress: PlayerProgressView,
    steps: Seq<Completion>,
) -> PlayerProgressView
    decreases steps.len(),
{
    if steps.len() == 0 {
        progress
    } else {
        after_completions(progress, steps.drop_last()).complete_clue(
            steps.last().clue_id,
            steps.last().points,
        )
    }
}

/// `clue_id` is completed somewhere in `steps`.
pub open spec fn completes(steps: Seq<Completion>, clue_id: u32) -> bool {
    exists|i: int| 0 <= i < steps.len() && (#[trigger] steps[i]).clue_id == clue_id
}

/// The points of the first completion of `clue_id` in `steps`; 0 where
/// there is none.
pub open spec fn first_points(steps: Seq<Completion>, clue_id: u32) -> nat
    decreases steps.len(),
{
    if steps.len() == 0 {
        0
    } else if completes(steps.drop_last(), clue_id) {
        first_points(steps.drop_last(), clue_id)
    } else if steps.last().clue_id == clue_id {
        steps.last().points as nat
    } else {
        0
    }
}

/// The sum, over `clues`, of the points of the first completion of each in
/// `steps`.
pub open spec fn points_of(clues: Seq<u32>, steps: Seq<Completion>) -> nat
    decreases clues.len(),
{
    if clues.len() == 0 {
        0
    } else {
        points_of(clues.drop_last(), steps) + first_points(steps, clues.last())
    }
}

proof fn lemma_points_stay(clues: Seq<u32>, steps: Seq<Completion>)
    requires
        steps.len() > 0,
        forall|i: int| 0 <= i < clues.len() ==> completes(steps.drop_last(), #[trigger] clues[i]),
    ensures
        points_of(clues, steps) == points_of(clues, steps.drop_last()),
    decreases clues.len(),
{
    if clues.len() > 0 {
        lemma_points_stay(clues.drop_last(), steps);
    }
}

/// Whatever a player completes, and however often, the record that began
/// empty lists each completed clue once, and the score is the sum of the
/// points of the listed clues, each counted as it first came, as long as
/// that sum can be held.
pub proof fn law_score_is_the_sum_of_the_points(
    player: Seq<char>,
    hunt_id: u64,
    now: u64,
    steps: Seq<Completion>,
)
    ensures
        ({
            let after = after_completions(PlayerProgressView::fresh(player, hunt_id, now), steps);
            &&& after.well_formed()
            &&& forall|clue_id: u32|
                #[trigger] after.has_completed_clue(clue_id) <==> completes(steps, clue_id)
            &&& points_of(after.completed_clues, steps) <= u32::MAX ==> after.total_score
                == points_of(after.completed_clues, steps)
        }),
    decreases steps.len(),
{
    let fresh = PlayerProgressView::fresh(player, hunt_id, now);
    let after = after_completions(fresh, steps);
    if steps.len() > 0 {
        let earlier = steps.drop_last();
        let last = steps.last();
        let so_far = after_completions(fresh, earlier);
        law_score_is_the_sum_of_the_points(player, hunt_id, now, earlier);
        assert forall|i: int| 0 <= i < so_far.completed_clues.len() implies completes(
            earlier,
            #[trigger] so_far.completed_clues[i],
        ) by {
            assert(so_far.has_completed_clue(so_far.completed_clues[i]));
        }
        lemma_points_stay(so_far.completed_clues, steps);
        if !so_far.has_completed_clue(last.clue_id) {
            lemma_push_absent(so_far.completed_clues, last.clue_id);
            assert(after.completed_clues.drop_last() =~= so_far.completed_clues);
        }
        assert forall|clue_id: u32| #[trigger]
            after.has_completed_clue(clue_id) <==> completes(steps, clue_id) by {
            assert(so_far.has_completed_clue(clue_id) <==> completes(earlier, clue_id));
            if completes(earlier, clue_id) {
                let i = choose|i: int| 0 <= i < earlier.len() && (#[trigger] earlier[i]).clue_id
                    == clue_id;
                assert(steps[i].clue_id == clue_id);
            }
            if completes(steps, clue_id) && clue_id != last.clue_id {
                let i = choose|i: int| 0 <= i < steps.len() && (#[trigger] steps[i]).clue_id
                    == clue_id;
                assert(earlier[i].clue_id == clue_id);
            }
        }
    }
}

/// The creator cancels a draft or an active hunt, and nothing but the
/// status changes; a hunt that is completed or cancelled is not cancelled
/// again.
pub proof fn law_cancel_by_status(hunt: HuntView)
    ensures
        hunt.status == HuntStatus::Draft || hunt.status == HuntStatus::Active ==> cancelled(
            hunt,
            hunt.creator,
        ) == Ok::<HuntView, HuntErrorCode>(HuntView { status: HuntStatus::Cancelled, ..hunt }),
        hunt.status == HuntStatus::Completed || hunt.status == HuntStatus::Cancelled ==> cancelled(
            hunt,
            hunt.creator,
        ) == Err::<HuntView, HuntErrorCode>(HuntErrorCode::InvalidHuntStatus),
{
}

/// A cancelled hunt stays cancelled: no step succeeds on it, whoever asks,
/// and its creator is told each time that the status forbids the step.
pub proof fn law_cancelled_is_terminal(hunt: HuntView, caller: Seq<char>, now: u64)
    requires
        hunt.status == HuntStatus::Cancelled,
    ensures
        activated(hunt, caller, now) is Err,
        deactivated(hunt, caller) is Err,
        cancelled(hunt, caller) is Err,
        caller == hunt.creator ==> {
            &&& activated(hunt, caller, now) == Err::<HuntView, HuntErrorCode>(
                HuntErrorCode::InvalidHuntStatus,
            )
            &&& deactivated(hunt, caller) == Err::<HuntView, HuntErrorCode>(
                HuntErrorCode::InvalidHuntStatus,
            )
            &&& cancelled(hunt, caller) == Err::<HuntView, HuntErrorCode>(
                HuntErrorCode::InvalidHuntStatus,
            )
        },
{
}

/// In a well-formed store no list of clue identifiers and no list of
/// players holds anything twice, and a list holds exactly what the store
/// has a record of.
pub proof fn law_lists_hold_nothing_twice(m: Map<KeyView, RecordView>, hunt_id: u64)
    requires
        well_formed(m),
    ensures
        clue_ids_of(m, hunt_id).no_duplicates(),
        players_of(m, hunt_id).no_duplicates(),
        forall|clue_id: u32|
            clue_ids_of(m, hunt_id).contains(clue_id) <==> #[trigger] holds_clue(
                m,
                hunt_id,
                clue_id,
            ),
        forall|player: Seq<char>|
            players_of(m, hunt_id).contains(player) <==> #[trigger] holds_progress(
                m,
                hunt_id,
                player,
            ),
{
}

/// Saving a clue keeps the store well formed, however often the same clue
/// is saved: the identifier joins the list the first time only.
pub proof fn law_saving_a_clue_lists_it_once(
    m: Map<KeyView, RecordView>,
    hunt_id: u64,
    clue: ClueView,
    again: ClueView,
)
    requires
        well_formed(m),
        again.clue_id == clue.clue_id,
    ensures
        well_formed(with_clue(m, hunt_id, clue)),
        clue_ids_of(with_clue(m, hunt_id, clue), hunt_id).contains(clue.clue_id),
        clue_ids_of(with_clue(with_clue(m, hunt_id, clue), hunt_id, again), hunt_id)
            == clue_ids_of(with_clue(m, hunt_id, clue), hunt_id),
{
    let after = with_clue(m, hunt_id, clue);
    let ids = clue_ids_of(m, hunt_id);
    law_lists_hold_nothing_twice(m, hunt_id);
    if !ids.contains(clue.clue_id) {
        lemma_push_absent(ids, clue.clue_id);
    }
    assert forall|h: u64, c: u32| holds_clue(after, h, c) == lists_clue(after, h, c) by {
        assert(holds_clue(m, h, c) == lists_clue(m, h, c));
    }
    assert forall|h: u64, player: Seq<char>|
        holds_progress(after, h, player) == lists_player(after, h, player) by {
        assert(holds_progress(m, h, player) == lists_player(m, h, player));
    }
}

/// Saving the progress of a player keeps the store well formed, however
/// often the same player is saved: the player joins the list the first
/// time only.
pub proof fn law_saving_progress_lists_the_player_once(
    m: Map<KeyView, RecordView>,
    progress: PlayerProgressView,
    again: PlayerProgressView,
)
    requires
        well_formed(m),
        again.hunt_id == progress.hunt_id,
        again.player == progress.player,
    ensures
        well_formed(with_progress(m, progress)),
        players_of(with_progress(m, progress), progress.hunt_id).contains(progress.player),
        players_of(with_progress(with_progress(m, progress), again), progress.hunt_id)
            == players_of(with_progress(m, progress), progress.hunt_id),
{
    let after = with_progress(m, progress);
    let players = players_of(m, progress.hunt_id);
    law_lists_hold_nothing_twice(m, progress.hunt_id);
    if !players.contains(progress.player) {
        lemma_push_absent(players, progress.player);
    }
    assert forall|h: u64, c: u32| holds_clue(after, h, c) == lists_clue(after, h, c) by {
        assert(holds_clue(m, h, c) == lists_clue(m, h, c));
    }
    assert forall|h: u64, player: Seq<char>|
        holds_progress(after, h, player) == lists_player(after, h, player) by {
        assert(holds_progress(m, h, player) == lists_player(m, h, player));
    }
}

} // verus!
