//! The records of a scavenger hunt and their mathematical views.

use vstd::prelude::*;
use vstd::std_specs::cmp::PartialEqSpecImpl;

verus! {

/// The identity of a principal: the creator of a hunt, a player, the
/// contract that mints a prize. It is kept in its textual form and is only
/// ever compared for equality.
#[derive(Debug)]
pub struct Address {
    pub key: String,
}

impl View for Address {
    type V = Seq<char>;

    open spec fn view(&self) -> Seq<char> {
        self.key@
    }
}

impl Clone for Address {
    fn clone(&self) -> (res: Self)
        ensures
            res@ == self@,
    {
        Address { key: self.key.clone() }
    }
}

impl PartialEq for Address {
    fn eq(&self, other: &Self) -> (r: bool) {
        self.key == other.key
    }
}

impl Eq for Address {

}

impl PartialEqSpecImpl for Address {
    open spec fn obeys_eq_spec() -> bool {
        true
    }

    open spec fn eq_spec(&self, other: &Self) -> bool {
        self@ == other@
    }
}

impl Address {
    /// The address written as `key`.
    pub fn new(key: String) -> (a: Address)
        ensures
            a@ == key@,
    {
        Address { key }
    }

    /// The address written as `key`.
    pub fn from_str(key: &str) -> (a: Address)
        ensures
            a@ == key@,
    {
        Address { key: key.to_owned() }
    }
}

/// Where a hunt stands in its lifecycle.
#[derive(Clone, Copy, Debug, PartialEq, Eq, Structural)]
pub enum HuntStatus {
    Draft,
    Active,
    Completed,
    Cancelled,
}

/// The view of an optional address.
pub open spec fn optional_address_view(a: Option<Address>) -> Option<Seq<char>> {
    match a {
        Some(address) => Some(address@),
        None => None,
    }
}

/// The views of a sequence of addresses, in the same order.
pub open spec fn address_views(s: Seq<Address>) -> Seq<Seq<char>> {
    s.map_values(|a: Address| a@)
}

/// The quotient of `a` by a positive `b`, rounded toward zero.
pub open spec fn div_toward_zero(a: int, b: int) -> int
    recommends
        b > 0,
{
    if a >= 0 {
        a / b
    } else {
        -((-a) / b)
    }
}

/// The prize attached to a hunt: a pool of funds shared among a bounded
/// number of winners, and optionally a token minted by another contract.
#[derive(Debug, PartialEq, Eq)]
pub struct RewardConfig {
    pub xlm_pool: i128,
    pub nft_enabled: bool,
    pub nft_contract: Option<Address>,
    pub max_winners: u32,
    pub claimed_count: u32,
}

/// A prize as a mathematical value: the contract that mints the token is
/// named by the text of its address.
pub struct RewardConfigView {
    pub xlm_pool: i128,
    pub nft_enabled: bool,
    pub nft_contract: Option<Seq<char>>,
    pub max_winners: u32,
    pub claimed_count: u32,
}

impl RewardConfigView {
    /// No more prizes have been claimed than there are winners.
    pub open spec fn well_formed(self) -> bool {
        self.claimed_count <= self.max_winners
    }

    /// The share of one winner: the pool divided by the number of winners,
    /// the remainder forfeited; nothing where there are no winners.
    pub open spec fn reward_per_winner(self) -> int {
        if self.max_winners == 0 {
            0
        } else {
            div_toward_zero(self.xlm_pool as int, self.max_winners as int)
        }
    }

    /// The configuration of a hunt that has no prize yet.
    pub open spec fn empty() -> RewardConfigView {
        RewardConfigView {
            xlm_pool: 0,
            nft_enabled: false,
            nft_contract: None,
            max_winners: 0,
            claimed_count: 0,
        }
    }
}

impl View for RewardConfig {
    type V = RewardConfigView;

    open spec fn view(&self) -> RewardConfigView {
        RewardConfigView {
            xlm_pool: self.xlm_pool,
            nft_enabled: self.nft_enabled,
            nft_contract: optional_address_view(self.nft_contract),
            max_winners: self.max_winners,
            claimed_count: self.claimed_count,
        }
    }
}

impl Clone for RewardConfig {
    fn clone(&self) -> (res: Self)
        ensures
            res@ == self@,
    {
        let nft_contract = match &self.nft_contract {
            Some(address) => Some(address.clone()),
            None => None,
        };
        RewardConfig {
            xlm_pool: self.xlm_pool,
            nft_enabled: self.nft_enabled,
            nft_contract,
            max_winners: self.max_winners,
            claimed_count: self.claimed_count,
        }
    }
}

impl RewardConfig {
    /// A configuration of which nothing has been claimed yet.
    pub fn new(
        xlm_pool: i128,
        nft_enabled: bool,
        nft_contract: Option<Address>,
        max_winners: u32,
    ) -> (config: RewardConfig)
        ensures
            config@ == (RewardConfigView {
                xlm_pool,
                nft_enabled,
                nft_contract: optional_address_view(nft_contract),
                max_winners,
                claimed_count: 0,
            }),
            config@.well_formed(),
    {
        RewardConfig { xlm_pool, nft_enabled, nft_contract, max_winners, claimed_count: 0 }
    }

    /// The share of one winner.
    pub fn reward_per_winner(&self) -> (share: i128)
        ensures
            share == self@.reward_per_winner(),
    {
        if self.max_winners == 0 {
            0
        } else {
            self.xlm_pool / (self.max_winners as i128)
        }
    }
}

/// A scavenger hunt: who made it, what it is called, where it stands in
/// its lifecycle, and what can be won.
#[derive(Debug)]
pub struct Hunt {
    pub hunt_id: u64,
    pub creator: Address,
    pub title: String,
    pub description: String,
    pub status: HuntStatus,
    pub created_at: u64,
    /// When the hunt was last activated; 0 until then.
    pub activated_at: u64,
    /// When the hunt closes; 0 for a hunt that never closes.
    pub end_time: u64,
    pub reward_config: RewardConfig,
    pub total_clues: u32,
    pub required_clues: u32,
}

/// A hunt as a mathematical value: each text is the sequence of its
/// characters, the creator the text of the address.
pub struct HuntView {
    pub hunt_id: u64,
    pub creator: Seq<char>,
    pub title: Seq<char>,
    pub description: Seq<char>,
    pub status: HuntStatus,
    pub created_at: u64,
    pub activated_at: u64,
    pub end_time: u64,
    pub reward_config: RewardConfigView,
    pub total_clues: u32,
    pub required_clues: u32,
}

impl HuntView {
    /// The hunt is open to players at time `now`: it is active, and it has
    /// no closing time or `now` is before it.
    pub open spec fn is_active(self, now: u64) -> bool {
        self.status == HuntStatus::Active && (self.end_time == 0 || now < self.end_time)
    }

    /// A prize is still to be claimed.
    pub open spec fn has_rewards_available(self) -> bool {
        self.reward_config.claimed_count < self.reward_config.max_winners
    }
}

impl View for Hunt {
    type V = HuntView;

    open spec fn view(&self) -> HuntView {
        HuntView {
            hunt_id: self.hunt_id,
            creator: self.creator@,
            title: self.title@,
            description: self.description@,
            status: self.status,
            created_at: self.created_at,
            activated_at: self.activated_at,
            end_time: self.end_time,
            reward_config: self.reward_config@,
            total_clues: self.total_clues,
            required_clues: self.required_clues,
        }
    }
}

impl Clone for Hunt {
    fn clone(&self) -> (res: Self)
        ensures
            res@ == self@,
    {
        Hunt {
            hunt_id: self.hunt_id,
            creator: self.creator.clone(),
            title: self.title.clone(),
            description: self.description.clone(),
            status: self.status,
            created_at: self.created_at,
            activated_at: self.activated_at,
            end_time: self.end_time,
            reward_config: self.reward_config.clone(),
            total_clues: self.total_clues,
            required_clues: self.required_clues,
        }
    }
}

impl Hunt {
    /// Whether the hunt is open to players at time `current_time`.
    pub fn is_active(&self, current_time: u64) -> (active: bool)
        ensures
            active == self@.is_active(current_time),
    {
        self.status == HuntStatus::Active && (self.end_time == 0 || current_time < self.end_time)
    }

    /// Whether a prize is still to be claimed.
    pub fn has_rewards_available(&self) -> (available: bool)
        ensures
            available == self@.has_rewards_available(),
    {
        self.reward_config.claimed_count < self.reward_config.max_winners
    }
}

/// A place on the globe and a distance around it. Latitude and longitude
/// are in millionths of a degree.
#[derive(Clone, Copy, Debug, PartialEq, Eq, Structural)]
pub struct Location {
    pub latitude: i64,
    pub longitude: i64,
    pub radius: u32,
}

impl Default for Location {
    fn default() -> (location: Self)
        ensures
            location == (Location { latitude: 0, longitude: 0, radius: 0 }),
    {
        Location { latitude: 0, longitude: 0, radius: 0 }
    }
}

/// One question of a hunt. The answer is kept as a fingerprint only.
/// `location` counts only where `has_location` is set.
#[derive(Debug, PartialEq, Eq)]
pub struct Clue {
    pub clue_id: u32,
    pub question: String,
    pub answer_hash: String,
    pub points: u32,
    pub is_required: bool,
    pub hint: String,
    pub has_location: bool,
    pub location: Location,
}

/// A clue as a mathematical value.
pub struct ClueView {
    pub clue_id: u32,
    pub question: Seq<char>,
    pub answer_hash: Seq<char>,
    pub points: u32,
    pub is_required: bool,
    pub hint: Seq<char>,
    pub has_location: bool,
    pub location: Location,
}

impl View for Clue {
    type V = ClueView;

    open spec fn view(&self) -> ClueView {
        ClueView {
            clue_id: self.clue_id,
            question: self.question@,
            answer_hash: self.answer_hash@,
            points: self.points,
            is_required: self.is_required,
            hint: self.hint@,
            has_location: self.has_location,
            location: self.location,
        }
    }
}

impl Clone for Clue {
    fn clone(&self) -> (res: Self)
        ensures
            res@ == self@,
    {
        Clue {
            clue_id: self.clue_id,
            question: self.question.clone(),
            answer_hash: self.answer_hash.clone(),
            points: self.points,
            is_required: self.is_required,
            hint: self.hint.clone(),
            has_location: self.has_location,
            location: self.location,
        }
    }
}

/// What one player has achieved in one hunt.
#[derive(Debug)]
pub struct PlayerProgress {
    pub player: Address,
    pub hunt_id: u64,
    /// The clues solved so far, in the order in which they were solved.
    pub completed_clues: Vec<u32>,
    pub total_score: u32,
    pub started_at: u64,
    /// When the player finished the hunt; 0 until then.
    pub completed_at: u64,
    pub is_completed: bool,
    pub reward_claimed: bool,
}

/// The progress of a player as a mathematical value.
pub struct PlayerProgressView {
    pub player: Seq<char>,
    pub hunt_id: u64,
    pub completed_clues: Seq<u32>,
    pub total_score: u32,
    pub started_at: u64,
    pub completed_at: u64,
    pub is_completed: bool,
    pub reward_claimed: bool,
}

impl PlayerProgressView {
    /// No clue is recorded twice.
    pub open spec fn well_formed(self) -> bool {
        self.completed_clues.no_duplicates()
    }

    /// The record of a player who has just joined a hunt.
    pub open spec fn fresh(player: Seq<char>, hunt_id: u64, now: u64) -> PlayerProgressView {
        PlayerProgressView {
            player,
            hunt_id,
            completed_clues: Seq::empty(),
            total_score: 0,
            started_at: now,
            completed_at: 0,
            is_completed: false,
            reward_claimed: false,
        }
    }

    /// `clue_id` is among the clues solved so far.
    pub open spec fn has_completed_clue(self, clue_id: u32) -> bool {
        self.completed_clues.contains(clue_id)
    }

    /// The record after the player has solved `clue_id`, worth `points`: a
    /// clue that is already recorded changes nothing.
    pub open spec fn complete_clue(self, clue_id: u32, points: u32) -> PlayerProgressView {
        if self.has_completed_clue(clue_id) {
            self
        } else {
            PlayerProgressView {
                completed_clues: self.completed_clues.push(clue_id),
                total_score: (self.total_score + points) as u32,
                ..self
            }
        }
    }
}

impl View for PlayerProgress {
    type V = PlayerProgressView;

    open spec fn view(&self) -> PlayerProgressView {
        PlayerProgressView {
            player: self.player@,
            hunt_id: self.hunt_id,
            completed_clues: self.completed_clues@,
            total_score: self.total_score,
            started_at: self.started_at,
            completed_at: self.completed_at,
            is_completed: self.is_completed,
            reward_claimed: self.reward_claimed,
        }
    }
}

impl Clone for PlayerProgress {
    fn clone(&self) -> (res: Self)
        ensures
            res@ == self@,
    {
        let completed_clues = self.completed_clues.clone();
        PlayerProgress {
            player: self.player.clone(),
            hunt_id: self.hunt_id,
            completed_clues,
            total_score: self.total_score,
            started_at: self.started_at,
            completed_at: self.completed_at,
            is_completed: self.is_completed,
            reward_claimed: self.reward_claimed,
        }
    }
}

impl PlayerProgress {
    /// The record of a player who joins hunt `hunt_id` at `current_time`.
    pub fn new(player: Address, hunt_id: u64, current_time: u64) -> (progress: PlayerProgress)
        ensures
            progress@ == PlayerProgressView::fresh(player@, hunt_id, current_time),
            progress@.well_formed(),
    {
        PlayerProgress {
            player,
            hunt_id,
            completed_clues: Vec::new(),
            total_score: 0,
            started_at: current_time,
            completed_at: 0,
            is_completed: false,
            reward_claimed: false,
        }
    }

    /// Whether `clue_id` is among the clues solved so far.
    pub fn has_completed_clue(&self, clue_id: u32) -> (found: bool)
        ensures
            found == self@.has_completed_clue(clue_id),
    {
        let mut i: usize = 0;
        while i < self.completed_clues.len()
            invariant
                i <= self.completed_clues.len(),
                forall|j: int| 0 <= j < i ==> self.completed_clues[j] != clue_id,
            decreases self.completed_clues.len() - i,
        {
            if self.completed_clues[i] == clue_id {
                return true;
            }
            i += 1;
        }
        false
    }

    /// Records that the player solved `clue_id`, worth `points`. A clue
    /// that is already recorded is not counted again.
    pub fn complete_clue(&mut self, clue_id: u32, points: u32)
        requires
            !old(self)@.has_completed_clue(clue_id) ==> old(self).total_score + points
                <= u32::MAX,
        ensures
            final(self)@ == old(self)@.complete_clue(clue_id, points),
            old(self)@.well_formed() ==> final(self)@.well_formed(),
    {
        if !self.has_completed_clue(clue_id) {
            self.completed_clues.push(clue_id);
            self.total_score += points;
        }
    }
}

/// A hunt was created.
#[derive(Debug)]
pub struct HuntCreatedEvent {
    pub hunt_id: u64,
    pub creator: Address,
    pub title: String,
}

/// A hunt was opened to players.
#[derive(Clone, Copy, Debug, PartialEq, Eq, Structural)]
pub struct HuntActivatedEvent {
    pub hunt_id: u64,
    pub activated_at: u64,
}

/// A hunt was taken back to draft.
#[derive(Clone, Copy, Debug, PartialEq, Eq, Structural)]
pub struct HuntDeactivatedEvent {
    pub hunt_id: u64,
}

/// A hunt was cancelled.
#[derive(Clone, Copy, Debug, PartialEq, Eq, Structural)]
pub struct HuntCancelledEvent {
    pub hunt_id: u64,
}

/// A hunt went from one status to another.
#[derive(Clone, Copy, Debug, PartialEq, Eq, Structural)]
pub struct HuntStatusChangedEvent {
    pub hunt_id: u64,
    pub old_status: HuntStatus,
    pub new_status: HuntStatus,
}

/// A player solved a clue.
#[derive(Debug)]
pub struct ClueCompletedEvent {
    pub hunt_id: u64,
    pub player: Address,
    pub clue_id: u32,
    pub points_earned: u32,
}

impl Clone for ClueCompletedEvent {
    fn clone(&self) -> (res: Self)
        ensures
            res.hunt_id == self.hunt_id,
            res.player@ == self.player@,
            res.clue_id == self.clue_id,
            res.points_earned == self.points_earned,
    {
        ClueCompletedEvent {
            hunt_id: self.hunt_id,
            player: self.player.clone(),
            clue_id: self.clue_id,
            points_earned: self.points_earned,
        }
    }
}

/// A player finished a hunt.
#[derive(Debug)]
pub struct HuntCompletedEvent {
    pub hunt_id: u64,
    pub player: Address,
    pub total_score: u32,
    pub completion_time: u64,
}

impl Clone for HuntCompletedEvent {
    fn clone(&self) -> (res: Self)
        ensures
            res.hunt_id == self.hunt_id,
            res.player@ == self.player@,
            res.total_score == self.total_score,
            res.completion_time == self.completion_time,
    {
        HuntCompletedEvent {
            hunt_id: self.hunt_id,
            player: self.player.clone(),
            total_score: self.total_score,
            completion_time: self.completion_time,
        }
    }
}

/// A player claimed a prize.
#[derive(Debug)]
pub struct RewardClaimedEvent {
    pub hunt_id: u64,
    pub player: Address,
    pub xlm_amount: i128,
    pub nft_awarded: bool,
}

impl Clone for RewardClaimedEvent {
    fn clone(&self) -> (res: Self)
        ensures
            res.hunt_id == self.hunt_id,
            res.player@ == self.player@,
            res.xlm_amount == self.xlm_amount,
            res.nft_awarded == self.nft_awarded,
    {
        RewardClaimedEvent {
            hunt_id: self.hunt_id,
            player: self.player.clone(),
            xlm_amount: self.xlm_amount,
            nft_awarded: self.nft_awarded,
        }
    }
}

/// What the lifecycle of a hunt makes known to observers.
#[derive(Debug)]
pub enum HuntEvent {
    Created(HuntCreatedEvent),
    Activated(HuntActivatedEvent),
    Deactivated(HuntDeactivatedEvent),
    Cancelled(HuntCancelledEvent),
}

/// A notification as a mathematical value.
pub enum HuntEventView {
    Created { hunt_id: u64, creator: Seq<char>, title: Seq<char> },
    Activated { hunt_id: u64, activated_at: u64 },
    Deactivated { hunt_id: u64 },
    Cancelled { hunt_id: u64 },
}

impl View for HuntEvent {
    type V = HuntEventView;

    open spec fn view(&self) -> HuntEventView {
        match *self {
            HuntEvent::Created(event) => HuntEventView::Created {
                hunt_id: event.hunt_id,
                creator: event.creator@,
                title: event.title@,
            },
            HuntEvent::Activated(event) => HuntEventView::Activated {
                hunt_id: event.hunt_id,
                activated_at: event.activated_at,
            },
            HuntEvent::Deactivated(event) => HuntEventView::Deactivated { hunt_id: event.hunt_id },
            HuntEvent::Cancelled(event) => HuntEventView::Cancelled { hunt_id: event.hunt_id },
        }
    }
}

/// The views of a sequence of events, in the same order.
pub open spec fn event_views(s: Seq<HuntEvent>) -> Seq<HuntEventView> {
    s.map_values(|e: HuntEvent| e@)
}

} // verus!
