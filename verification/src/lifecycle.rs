//! The lifecycle of a hunt: it is created as a draft, opened to players,
//! taken back to draft, or cancelled for good. Each step is checked before
//! anything is written, and each step that succeeds is made known.

use crate::errors::HuntErrorCode;
use crate::storage::{
    counter_of, hunt_of, with_hunt, with_next_hunt_id, KeyView, RecordView, Storage,
};
use crate::text::{text_len, utf8_len};
use crate::types::{
    event_views, Address, Hunt, HuntActivatedEvent, HuntCancelledEvent, HuntCreatedEvent,
    HuntDeactivatedEvent, HuntEvent, HuntEventView, HuntStatus, HuntView, RewardConfig,
    RewardConfigView,
};
use vstd::prelude::*;

verus! {

/// The greatest length of a title, in bytes.
pub const MAX_TITLE_LENGTH: usize = 200;

/// The greatest length of a description, in bytes.
pub const MAX_DESCRIPTION_LENGTH: usize = 2000;

/// A title is neither empty nor longer than the greatest length.
pub open spec fn title_valid(title: Seq<char>) -> bool {
    1 <= utf8_len(title) <= MAX_TITLE_LENGTH
}

/// A description is no longer than the greatest length.
pub open spec fn description_valid(description: Seq<char>) -> bool {
    utf8_len(description) <= MAX_DESCRIPTION_LENGTH
}

/// Why a hunt with this title and description cannot be created, if it
/// cannot: the title is judged first.
pub open spec fn text_failure(title: Seq<char>, description: Seq<char>) -> Option<HuntErrorCode> {
    if !title_valid(title) {
        Some(HuntErrorCode::InvalidTitle)
    } else if !description_valid(description) {
        Some(HuntErrorCode::InvalidDescription)
    } else {
        None
    }
}

/// Judges the title and the description of a hunt to be.
pub fn check_hunt_text(title: &String, description: &String) -> (checked: Result<
    (),
    HuntErrorCode,
>)
    ensures
        match text_failure(title@, description@) {
            Some(code) => checked == Err::<(), HuntErrorCode>(code),
            None => checked is Ok,
        },
{
    let title_len = text_len(title);
    if title_len == 0 {
        return Err(HuntErrorCode::InvalidTitle);
    }
    if title_len > MAX_TITLE_LENGTH {
        return Err(HuntErrorCode::InvalidTitle);
    }
    if text_len(description) > MAX_DESCRIPTION_LENGTH {
        return Err(HuntErrorCode::InvalidDescription);
    }
    Ok(())
}

/// The hunt as it is created: a draft without clues and without a prize. A
/// closing time that is not given means that the hunt never closes.
pub open spec fn draft_hunt(
    hunt_id: u64,
    creator: Seq<char>,
    title: Seq<char>,
    description: Seq<char>,
    end_time: Option<u64>,
    now: u64,
) -> HuntView {
    HuntView {
        hunt_id,
        creator,
        title,
        description,
        status: HuntStatus::Draft,
        created_at: now,
        activated_at: 0,
        end_time: match end_time {
            Some(time) => time,
            None => 0,
        },
        reward_config: RewardConfigView::empty(),
        total_clues: 0,
        required_clues: 0,
    }
}

/// What becomes of `hunt` when `caller` opens it to players at `now`. The
/// caller is judged first, then the status, then the clues.
pub open spec fn activated(hunt: HuntView, caller: Seq<char>, now: u64) -> Result<
    HuntView,
    HuntErrorCode,
> {
    if caller != hunt.creator {
        Err(HuntErrorCode::Unauthorized)
    } else if hunt.status != HuntStatus::Draft {
        Err(HuntErrorCode::InvalidHuntStatus)
    } else if hunt.total_clues == 0 {
        Err(HuntErrorCode::NoCluesAdded)
    } else {
        Ok(HuntView { status: HuntStatus::Active, activated_at: now, ..hunt })
    }
}

/// What becomes of `hunt` when `caller` takes it back to draft. The time
/// of the last activation stays.
pub open spec fn deactivated(hunt: HuntView, caller: Seq<char>) -> Result<
    HuntView,
    HuntErrorCode,
> {
    if caller != hunt.creator {
        Err(HuntErrorCode::Unauthorized)
    } else if hunt.status != HuntStatus::Active {
        Err(HuntErrorCode::InvalidHuntStatus)
    } else {
        Ok(HuntView { status: HuntStatus::Draft, ..hunt })
    }
}

/// What becomes of `hunt` when `caller` cancels it. A hunt that is
/// completed or cancelled stays as it is.
pub open spec fn cancelled(hunt: HuntView, caller: Seq<char>) -> Result<HuntView, HuntErrorCode> {
    if caller != hunt.creator {
        Err(HuntErrorCode::Unauthorized)
    } else if hunt.status == HuntStatus::Completed || hunt.status == HuntStatus::Cancelled {
        Err(HuntErrorCode::InvalidHuntStatus)
    } else {
        Ok(HuntView { status: HuntStatus::Cancelled, ..hunt })
    }
}

/// The hunt is as `step` leaves `before`; where `step` fails, the hunt is
/// unchanged and the failure is the answer.
pub open spec fn follows(
    step: Result<HuntView, HuntErrorCode>,
    before: HuntView,
    after: HuntView,
    answer: Result<(), HuntErrorCode>,
) -> bool {
    match step {
        Ok(hunt) => answer is Ok && after == hunt,
        Err(code) => answer == Err::<(), HuntErrorCode>(code) && after == before,
    }
}

impl Hunt {
    /// Opens the hunt to players at `now`, on behalf of `caller`.
    pub fn activate(&mut self, caller: &Address, now: u64) -> (answer: Result<(), HuntErrorCode>)
        ensures
            follows(activated(old(self)@, caller@, now), old(self)@, final(self)@, answer),
    {
        if *caller != self.creator {
            return Err(HuntErrorCode::Unauthorized);
        }
        if self.status != HuntStatus::Draft {
            return Err(HuntErrorCode::InvalidHuntStatus);
        }
        if self.total_clues == 0 {
            return Err(HuntErrorCode::NoCluesAdded);
        }
        self.status = HuntStatus::Active;
        self.activated_at = now;
        Ok(())
    }

    /// Takes the hunt back to draft, on behalf of `caller`.
    pub fn deactivate(&mut self, caller: &Address) -> (answer: Result<(), HuntErrorCode>)
        ensures
            follows(deactivated(old(self)@, caller@), old(self)@, final(self)@, answer),
    {
        if *caller != self.creator {
            return Err(HuntErrorCode::Unauthorized);
        }
        if self.status != HuntStatus::Active {
            return Err(HuntErrorCode::InvalidHuntStatus);
        }
        self.status = HuntStatus::Draft;
        Ok(())
    }

    /// Cancels the hunt, on behalf of `caller`.
    pub fn cancel(&mut self, caller: &Address) -> (answer: Result<(), HuntErrorCode>)
        ensures
            follows(cancelled(old(self)@, caller@), old(self)@, final(self)@, answer),
    {
        if *caller != self.creator {
            return Err(HuntErrorCode::Unauthorized);
        }
        if self.status == HuntStatus::Completed {
            return Err(HuntErrorCode::InvalidHuntStatus);
        }
        if self.status == HuntStatus::Cancelled {
            return Err(HuntErrorCode::InvalidHuntStatus);
        }
        self.status = HuntStatus::Cancelled;
        Ok(())
    }
}

/// The controller: the store, and the notifications that wait to be
/// delivered, oldest first.
pub struct HuntyCore {
    pub storage: Storage,
    pub events: Vec<HuntEvent>,
}

/// The controller as a mathematical value: what the store holds, and the
/// notifications that wait.
pub struct CoreView {
    pub storage: Map<KeyView, RecordView>,
    pub events: Seq<HuntEventView>,
}

impl View for HuntyCore {
    type V = CoreView;

    open spec fn view(&self) -> CoreView {
        CoreView { storage: self.storage@, events: event_views(self.events@) }
    }
}

/// `m` holds a record under the key of the hunt `hunt_id`.
pub open spec fn holds_hunt(m: Map<KeyView, RecordView>, hunt_id: u64) -> bool {
    m.contains_key(KeyView::Hunt(hunt_id))
}

/// Every hunt that `m` holds has an identifier that was handed out.
pub open spec fn ids_handed_out(m: Map<KeyView, RecordView>) -> bool {
    forall|hunt_id: u64| #[trigger] holds_hunt(m, hunt_id) ==> 1 <= hunt_id <= counter_of(m)
}

/// The controller and the answer after a hunt has been asked for: nothing
/// changes where the title or the description is rejected; else the next
/// identifier is handed out, the draft is saved under it, and its creation
/// is made known.
pub open spec fn create_hunt_spec(
    before: CoreView,
    creator: Seq<char>,
    title: Seq<char>,
    description: Seq<char>,
    end_time: Option<u64>,
    now: u64,
) -> (CoreView, Result<u64, HuntErrorCode>) {
    match text_failure(title, description) {
        Some(code) => (before, Err(code)),
        None => {
            let hunt_id = (counter_of(before.storage) + 1) as u64;
            let hunt = draft_hunt(hunt_id, creator, title, description, end_time, now);
            (
                CoreView {
                    storage: with_hunt(with_next_hunt_id(before.storage), hunt),
                    events: before.events.push(HuntEventView::Created { hunt_id, creator, title }),
                },
                Ok(hunt_id),
            )
        },
    }
}

/// The controller and the answer after a step of the lifecycle of the hunt
/// `hunt_id`: nothing changes where the hunt is missing or `step` fails;
/// else the hunt is saved as `step` leaves it, and `event` is made known.
pub open spec fn step_spec(
    before: CoreView,
    hunt_id: u64,
    step: spec_fn(HuntView) -> Result<HuntView, HuntErrorCode>,
    event: HuntEventView,
) -> (CoreView, Result<(), HuntErrorCode>) {
    match hunt_of(before.storage, hunt_id) {
        None => (before, Err(HuntErrorCode::HuntNotFound)),
        Some(hunt) => match step(hunt) {
            Err(code) => (before, Err(code)),
            Ok(changed) => (
                CoreView {
                    storage: with_hunt(before.storage, changed),
                    events: before.events.push(event),
                },
                Ok(()),
            ),
        },
    }
}

/// The controller and the answer after `caller` has asked at `now` to open
/// the hunt `hunt_id` to players.
pub open spec fn activate_hunt_spec(before: CoreView, hunt_id: u64, caller: Seq<char>, now: u64) -> (
    CoreView,
    Result<(), HuntErrorCode>,
) {
    step_spec(
        before,
        hunt_id,
        |hunt: HuntView| activated(hunt, caller, now),
        HuntEventView::Activated { hunt_id, activated_at: now },
    )
}

/// The controller and the answer after `caller` has asked to take the hunt
/// `hunt_id` back to draft.
pub open spec fn deactivate_hunt_spec(before: CoreView, hunt_id: u64, caller: Seq<char>) -> (
    CoreView,
    Result<(), HuntErrorCode>,
) {
    step_spec(
        before,
        hunt_id,
        |hunt: HuntView| deactivated(hunt, caller),
        HuntEventView::Deactivated { hunt_id },
    )
}

/// The controller and the answer after `caller` has asked to cancel the
/// hunt `hunt_id`.
pub open spec fn cancel_hunt_spec(before: CoreView, hunt_id: u64, caller: Seq<char>) -> (
    CoreView,
    Result<(), HuntErrorCode>,
) {
    step_spec(
        before,
        hunt_id,
        |hunt: HuntView| cancelled(hunt, caller),
        HuntEventView::Cancelled { hunt_id },
    )
}

impl HuntyCore {
    /// The store is well formed, and every hunt in it has an identifier
    /// that was handed out.
    pub open spec fn wf(&self) -> bool {
        self.storage.wf() && ids_handed_out(self.storage@)
    }

    /// A controller with an empty store and nothing to make known.
    pub fn new() -> (core: HuntyCore)
        ensures
            core.wf(),
            core@ == (CoreView { storage: Map::empty(), events: Seq::empty() }),
    {
        let core = HuntyCore { storage: Storage::new(), events: Vec::new() };
        assert(event_views(core.events@) =~= Seq::<HuntEventView>::empty());
        core
    }

    /// Creates a hunt in draft for `creator` at time `now`, and answers
    /// with its identifier. Anyone may create a hunt. A hunt has no opening
    /// time: the one that is given is not looked at.
    pub fn create_hunt(
        &mut self,
        creator: Address,
        title: String,
        description: String,
        _start_time: Option<u64>,
        end_time: Option<u64>,
        now: u64,
    ) -> (answer: Result<u64, HuntErrorCode>)
        requires
            old(self).wf(),
            counter_of(old(self).storage@) < u64::MAX,
        ensures
            final(self).wf(),
            (final(self)@, answer) == create_hunt_spec(
                old(self)@,
                creator@,
                title@,
                description@,
                end_time,
                now,
            ),
    {
        match check_hunt_text(&title, &description) {
            Err(code) => {
                return Err(code);
            },
            Ok(_) => {},
        }
        let hunt_id = self.storage.next_hunt_id();
        let reward_config = RewardConfig::new(0, false, None, 0);
        let hunt = Hunt {
            hunt_id,
            creator: creator.clone(),
            title: title.clone(),
            description: description.clone(),
            status: HuntStatus::Draft,
            created_at: now,
            activated_at: 0,
            end_time: match end_time {
                Some(time) => time,
                None => 0,
            },
            reward_config,
            total_clues: 0,
            required_clues: 0,
        };
        proof {
            assert forall|id: u64| #[trigger] holds_hunt(self.storage@, id) implies 1 <= id
                <= counter_of(self.storage@) by {
                assert(holds_hunt(old(self).storage@, id));
            }
        }
        let event = HuntEvent::Created(HuntCreatedEvent { hunt_id, creator, title });
        self.store_and_tell(hunt_id, &hunt, event);
        Ok(hunt_id)
    }

    /// Opens the hunt `hunt_id` to players at time `now`, on behalf of
    /// `caller`.
    pub fn activate_hunt(&mut self, hunt_id: u64, caller: &Address, now: u64) -> (answer: Result<
        (),
        HuntErrorCode,
    >)
        requires
            old(self).wf(),
        ensures
            final(self).wf(),
            (final(self)@, answer) == activate_hunt_spec(old(self)@, hunt_id, caller@, now),
    {
        let mut hunt = match self.storage.get_hunt(hunt_id) {
            Some(hunt) => hunt,
            None => {
                return Err(HuntErrorCode::HuntNotFound);
            },
        };
        match hunt.activate(caller, now) {
            Err(code) => {
                return Err(code);
            },
            Ok(_) => {},
        }
        let event = HuntEvent::Activated(HuntActivatedEvent { hunt_id, activated_at: now });
        assert(holds_hunt(self.storage@, hunt_id));
        self.store_and_tell(hunt_id, &hunt, event);
        Ok(())
    }

    /// Takes the hunt `hunt_id` back to draft, on behalf of `caller`.
    pub fn deactivate_hunt(&mut self, hunt_id: u64, caller: &Address) -> (answer: Result<
        (),
        HuntErrorCode,
    >)
        requires
            old(self).wf(),
        ensures
            final(self).wf(),
            (final(self)@, answer) == deactivate_hunt_spec(old(self)@, hunt_id, caller@),
    {
        let mut hunt = match self.storage.get_hunt(hunt_id) {
            Some(hunt) => hunt,
            None => {
                return Err(HuntErrorCode::HuntNotFound);
            },
        };
        match hunt.deactivate(caller) {
            Err(code) => {
                return Err(code);
            },
            Ok(_) => {},
        }
        let event = HuntEvent::Deactivated(HuntDeactivatedEvent { hunt_id });
        assert(holds_hunt(self.storage@, hunt_id));
        self.store_and_tell(hunt_id, &hunt, event);
        Ok(())
    }

    /// Cancels the hunt `hunt_id`, on behalf of `caller`. The pool of a
    /// cancelled hunt is to be paid back by whoever holds the funds; the
    /// controller moves none.
    pub fn cancel_hunt(&mut self, hunt_id: u64, caller: &Address) -> (answer: Result<
        (),
        HuntErrorCode,
    >)
        requires
            old(self).wf(),
        ensures
            final(self).wf(),
            (final(self)@, answer) == cancel_hunt_spec(old(self)@, hunt_id, caller@),
    {
        let mut hunt = match self.storage.get_hunt(hunt_id) {
            Some(hunt) => hunt,
            None => {
                return Err(HuntErrorCode::HuntNotFound);
            },
        };
        match hunt.cancel(caller) {
            Err(code) => {
                return Err(code);
            },
            Ok(_) => {},
        }
        let event = HuntEvent::Cancelled(HuntCancelledEvent { hunt_id });
        assert(holds_hunt(self.storage@, hunt_id));
        self.store_and_tell(hunt_id, &hunt, event);
        Ok(())
    }

    /// Saves the hunt `hunt_id` as `hunt` and makes `event` known.
    fn store_and_tell(&mut self, hunt_id: u64, hunt: &Hunt, event: HuntEvent)
        requires
            old(self).wf(),
            1 <= hunt_id <= counter_of(old(self).storage@),
            hunt.hunt_id == hunt_id,
        ensures
            final(self).wf(),
            final(self)@ == (CoreView {
                storage: with_hunt(old(self)@.storage, hunt@),
                events: old(self)@.events.push(event@),
            }),
    {
        self.storage.save_hunt(hunt);
        let ghost listed = event_views(self.events@);
        let ghost shown = event@;
        self.events.push(event);
        proof {
            assert(event_views(self.events@) =~= listed.push(shown));
            let before = old(self).storage@;
            let after = self.storage@;
            assert forall|id: u64| #[trigger] holds_hunt(after, id) implies 1 <= id <= counter_of(
                after,
            ) by {
                if id != hunt_id {
                    assert(holds_hunt(before, id));
                }
            }
        }
    }

    /// Hands over the notifications that wait, oldest first, and keeps
    /// none.
    pub fn take_events(&mut self) -> (events: Vec<HuntEvent>)
        ensures
            event_views(events@) == old(self)@.events,
            final(self)@ == (CoreView { storage: old(self)@.storage, events: Seq::empty() }),
            old(self).wf() ==> final(self).wf(),
    {
        let mut events: Vec<HuntEvent> = Vec::new();
        std::mem::swap(&mut events, &mut self.events);
        assert(event_views(self.events@) =~= Seq::<HuntEventView>::empty());
        events
    }
}

} // verus!
