//! The indexed store: one mapping from composite keys to records, and on
//! top of it the hunts, the clues and the players' progress, each with a
//! list that enumerates what a hunt holds.

use crate::errors::HuntError;
use crate::types::{
    address_views, Address, Clue, ClueView, Hunt, HuntView, PlayerProgress, PlayerProgressView,
};
use vstd::prelude::*;
use vstd::std_specs::cmp::PartialEqSpecImpl;

verus! {

/// The key of a record: what kind of record it is, and which one.
#[derive(Debug)]
pub enum StorageKey {
    /// The hunt with this identifier.
    Hunt(u64),
    /// The clue of this hunt with this identifier.
    Clue(u64, u32),
    /// The progress in this hunt of this player.
    Progress(u64, Address),
    /// The list of the players of this hunt.
    PlayersList(u64),
    /// The list of the clue identifiers of this hunt.
    CluesList(u64),
    /// The number of hunt identifiers handed out so far.
    HuntCounter,
}

/// A key as a mathematical value: a player is named by the text of the
/// address.
pub enum KeyView {
    Hunt(u64),
    Clue(u64, u32),
    Progress(u64, Seq<char>),
    PlayersList(u64),
    CluesList(u64),
    HuntCounter,
}

impl View for StorageKey {
    type V = KeyView;

    open spec fn view(&self) -> KeyView {
        match *self {
            StorageKey::Hunt(hunt_id) => KeyView::Hunt(hunt_id),
            StorageKey::Clue(hunt_id, clue_id) => KeyView::Clue(hunt_id, clue_id),
            StorageKey::Progress(hunt_id, player) => KeyView::Progress(hunt_id, player@),
            StorageKey::PlayersList(hunt_id) => KeyView::PlayersList(hunt_id),
            StorageKey::CluesList(hunt_id) => KeyView::CluesList(hunt_id),
            StorageKey::HuntCounter => KeyView::HuntCounter,
        }
    }
}

impl PartialEq for StorageKey {
    fn eq(&self, other: &Self) -> (r: bool) {
        match (self, other) {
            (StorageKey::Hunt(a), StorageKey::Hunt(b)) => *a == *b,
            (StorageKey::Clue(a, c), StorageKey::Clue(b, d)) => *a == *b && *c == *d,
            (StorageKey::Progress(a, p), StorageKey::Progress(b, q)) => *a == *b && *p == *q,
            (StorageKey::PlayersList(a), StorageKey::PlayersList(b)) => *a == *b,
            (StorageKey::CluesList(a), StorageKey::CluesList(b)) => *a == *b,
            (StorageKey::HuntCounter, StorageKey::HuntCounter) => true,
            _ => false,
        }
    }
}

impl Eq for StorageKey {

}

impl PartialEqSpecImpl for StorageKey {
    open spec fn obeys_eq_spec() -> bool {
        true
    }

    open spec fn eq_spec(&self, other: &Self) -> bool {
        self@ == other@
    }
}

/// What the store holds under a key.
#[derive(Debug)]
pub enum Record {
    Hunt(Hunt),
    Clue(Clue),
    Progress(PlayerProgress),
    Players(Vec<Address>),
    ClueIds(Vec<u32>),
    Counter(u64),
}

/// A record as a mathematical value.
pub enum RecordView {
    Hunt(HuntView),
    Clue(ClueView),
    Progress(PlayerProgressView),
    Players(Seq<Seq<char>>),
    ClueIds(Seq<u32>),
    Counter(u64),
}

impl View for Record {
    type V = RecordView;

    open spec fn view(&self) -> RecordView {
        match *self {
            Record::Hunt(hunt) => RecordView::Hunt(hunt@),
            Record::Clue(clue) => RecordView::Clue(clue@),
            Record::Progress(progress) => RecordView::Progress(progress@),
            Record::Players(players) => RecordView::Players(address_views(players@)),
            Record::ClueIds(clue_ids) => RecordView::ClueIds(clue_ids@),
            Record::Counter(count) => RecordView::Counter(count),
        }
    }
}

/// A copy of `players`.
pub fn clone_addresses(players: &Vec<Address>) -> (res: Vec<Address>)
    ensures
        address_views(res@) == address_views(players@),
{
    let mut res: Vec<Address> = Vec::new();
    let mut i: usize = 0;
    while i < players.len()
        invariant
            i <= players.len(),
            res.len() == i,
            forall|j: int| 0 <= j < i ==> res[j]@ == players[j]@,
        decreases players.len() - i,
    {
        res.push(players[i].clone());
        i += 1;
    }
    res
}

impl Clone for Record {
    fn clone(&self) -> (res: Self)
        ensures
            res@ == self@,
    {
        match self {
            Record::Hunt(hunt) => Record::Hunt(hunt.clone()),
            Record::Clue(clue) => Record::Clue(clue.clone()),
            Record::Progress(progress) => Record::Progress(progress.clone()),
            Record::Players(players) => Record::Players(clone_addresses(players)),
            Record::ClueIds(clue_ids) => {
                let copy = clue_ids.clone();
                Record::ClueIds(copy)
            },
            Record::Counter(count) => Record::Counter(*count),
        }
    }
}

/// The hunt that `m` holds under `hunt_id`.
pub open spec fn hunt_of(m: Map<KeyView, RecordView>, hunt_id: u64) -> Option<HuntView> {
    if m.contains_key(KeyView::Hunt(hunt_id)) {
        match m[KeyView::Hunt(hunt_id)] {
            RecordView::Hunt(hunt) => Some(hunt),
            _ => None,
        }
    } else {
        None
    }
}

/// The clue that `m` holds under `hunt_id` and `clue_id`.
pub open spec fn clue_of(m: Map<KeyView, RecordView>, hunt_id: u64, clue_id: u32) -> Option<
    ClueView,
> {
    if m.contains_key(KeyView::Clue(hunt_id, clue_id)) {
        match m[KeyView::Clue(hunt_id, clue_id)] {
            RecordView::Clue(clue) => Some(clue),
            _ => None,
        }
    } else {
        None
    }
}

/// The progress that `m` holds of `player` in `hunt_id`.
pub open spec fn progress_of(
    m: Map<KeyView, RecordView>,
    hunt_id: u64,
    player: Seq<char>,
) -> Option<PlayerProgressView> {
    if m.contains_key(KeyView::Progress(hunt_id, player)) {
        match m[KeyView::Progress(hunt_id, player)] {
            RecordView::Progress(progress) => Some(progress),
            _ => None,
        }
    } else {
        None
    }
}

/// The clue identifiers that `m` lists for `hunt_id`, in the order in which
/// they were first saved; none where it holds no list.
pub open spec fn clue_ids_of(m: Map<KeyView, RecordView>, hunt_id: u64) -> Seq<u32> {
    if m.contains_key(KeyView::CluesList(hunt_id)) {
        match m[KeyView::CluesList(hunt_id)] {
            RecordView::ClueIds(clue_ids) => clue_ids,
            _ => Seq::empty(),
        }
    } else {
        Seq::empty()
    }
}

/// The players that `m` lists for `hunt_id`, in the order in which they
/// were first saved; none where it holds no list.
pub open spec fn players_of(m: Map<KeyView, RecordView>, hunt_id: u64) -> Seq<Seq<char>> {
    if m.contains_key(KeyView::PlayersList(hunt_id)) {
        match m[KeyView::PlayersList(hunt_id)] {
            RecordView::Players(players) => players,
            _ => Seq::empty(),
        }
    } else {
        Seq::empty()
    }
}

/// The number of hunt identifiers handed out so far: 0 where `m` holds no
/// counter.
pub open spec fn counter_of(m: Map<KeyView, RecordView>) -> u64 {
    if m.contains_key(KeyView::HuntCounter) {
        match m[KeyView::HuntCounter] {
            RecordView::Counter(count) => count,
            _ => 0,
        }
    } else {
        0
    }
}

/// `record` is of the kind that `key` asks for, it carries the identity
/// that `key` names, and a list holds nothing twice.
pub open spec fn consistent(key: KeyView, record: RecordView) -> bool {
    match key {
        KeyView::Hunt(hunt_id) => record matches RecordView::Hunt(hunt) && hunt.hunt_id
            == hunt_id,
        KeyView::Clue(_, clue_id) => record matches RecordView::Clue(clue) && clue.clue_id
            == clue_id,
        KeyView::Progress(hunt_id, player) => record matches RecordView::Progress(progress)
            && progress.hunt_id == hunt_id && progress.player == player,
        KeyView::PlayersList(_) => record matches RecordView::Players(players)
            && players.no_duplicates(),
        KeyView::CluesList(_) => record matches RecordView::ClueIds(clue_ids)
            && clue_ids.no_duplicates(),
        KeyView::HuntCounter => record is Counter,
    }
}

/// `m` holds a record of the clue `clue_id` of `hunt_id`.
pub open spec fn holds_clue(m: Map<KeyView, RecordView>, hunt_id: u64, clue_id: u32) -> bool {
    m.contains_key(KeyView::Clue(hunt_id, clue_id))
}

/// `m` lists `clue_id` among the clues of `hunt_id`.
pub open spec fn lists_clue(m: Map<KeyView, RecordView>, hunt_id: u64, clue_id: u32) -> bool {
    clue_ids_of(m, hunt_id).contains(clue_id)
}

/// `m` holds a record of the progress of `player` in `hunt_id`.
pub open spec fn holds_progress(
    m: Map<KeyView, RecordView>,
    hunt_id: u64,
    player: Seq<char>,
) -> bool {
    m.contains_key(KeyView::Progress(hunt_id, player))
}

/// `m` lists `player` among the players of `hunt_id`.
pub open spec fn lists_player(
    m: Map<KeyView, RecordView>,
    hunt_id: u64,
    player: Seq<char>,
) -> bool {
    players_of(m, hunt_id).contains(player)
}

/// Every record fits its key, and the two lists of a hunt enumerate
/// exactly the clues and the players of which the store holds a record.
pub open spec fn well_formed(m: Map<KeyView, RecordView>) -> bool {
    &&& forall|key: KeyView| #[trigger] m.contains_key(key) ==> consistent(key, m[key])
    &&& forall|hunt_id: u64, clue_id: u32|
        #![trigger holds_clue(m, hunt_id, clue_id)]
        #![trigger lists_clue(m, hunt_id, clue_id)]
        holds_clue(m, hunt_id, clue_id) == lists_clue(m, hunt_id, clue_id)
    &&& forall|hunt_id: u64, player: Seq<char>|
        #![trigger holds_progress(m, hunt_id, player)]
        #![trigger lists_player(m, hunt_id, player)]
        holds_progress(m, hunt_id, player) == lists_player(m, hunt_id, player)
}

/// `m` after `hunt` has been saved.
pub open spec fn with_hunt(m: Map<KeyView, RecordView>, hunt: HuntView) -> Map<
    KeyView,
    RecordView,
> {
    m.insert(KeyView::Hunt(hunt.hunt_id), RecordView::Hunt(hunt))
}

/// `m` after `clue` has been saved for `hunt_id`: the clue is written, and
/// its identifier joins the end of the hunt's list unless it is listed.
pub open spec fn with_clue(m: Map<KeyView, RecordView>, hunt_id: u64, clue: ClueView) -> Map<
    KeyView,
    RecordView,
> {
    let written = m.insert(KeyView::Clue(hunt_id, clue.clue_id), RecordView::Clue(clue));
    if clue_ids_of(m, hunt_id).contains(clue.clue_id) {
        written
    } else {
        written.insert(
            KeyView::CluesList(hunt_id),
            RecordView::ClueIds(clue_ids_of(m, hunt_id).push(clue.clue_id)),
        )
    }
}

/// `m` after `progress` has been saved: the record is written, and its
/// player joins the end of the hunt's list unless the player is listed.
pub open spec fn with_progress(m: Map<KeyView, RecordView>, progress: PlayerProgressView) -> Map<
    KeyView,
    RecordView,
> {
    let written = m.insert(
        KeyView::Progress(progress.hunt_id, progress.player),
        RecordView::Progress(progress),
    );
    if players_of(m, progress.hunt_id).contains(progress.player) {
        written
    } else {
        written.insert(
            KeyView::PlayersList(progress.hunt_id),
            RecordView::Players(players_of(m, progress.hunt_id).push(progress.player)),
        )
    }
}

/// `m` after one more hunt identifier has been handed out.
pub open spec fn with_next_hunt_id(m: Map<KeyView, RecordView>) -> Map<KeyView, RecordView> {
    m.insert(KeyView::HuntCounter, RecordView::Counter((counter_of(m) + 1) as u64))
}

/// The views of a sequence of clues, in the same order.
pub open spec fn clue_views(s: Seq<Clue>) -> Seq<ClueView> {
    s.map_values(|c: Clue| c@)
}

/// The views of a sequence of progress records, in the same order.
pub open spec fn progress_views(s: Seq<PlayerProgress>) -> Seq<PlayerProgressView> {
    s.map_values(|p: PlayerProgress| p@)
}

/// The clues of `hunt_id`, in the order of the hunt's list.
pub open spec fn clues_listed(m: Map<KeyView, RecordView>, hunt_id: u64) -> Seq<ClueView> {
    clue_ids_of(m, hunt_id).map_values(|clue_id: u32| clue_of(m, hunt_id, clue_id).unwrap())
}

/// The progress of the players of `hunt_id`, in the order of the hunt's
/// list.
pub open spec fn progress_listed(m: Map<KeyView, RecordView>, hunt_id: u64) -> Seq<
    PlayerProgressView,
> {
    players_of(m, hunt_id).map_values(
        |player: Seq<char>| progress_of(m, hunt_id, player).unwrap(),
    )
}

struct Entry {
    key: StorageKey,
    record: Record,
}

/// The store. Each key is held once; a record that is written under a key
/// that is already there takes the place of the old one.
pub struct Storage {
    entries: Vec<Entry>,
}

impl View for Storage {
    type V = Map<KeyView, RecordView>;

    closed spec fn view(&self) -> Map<KeyView, RecordView> {
        Map::new(
            |k: KeyView| exists|i: int| self.holds_at(i, k),
            |k: KeyView| self.entries[choose|i: int| self.holds_at(i, k)].record@,
        )
    }
}

impl Storage {
    /// The entry at position `i` has the key `k`.
    spec fn holds_at(&self, i: int, k: KeyView) -> bool {
        0 <= i < self.entries.len() && self.entries[i].key@ == k
    }

    /// No key is held twice.
    pub closed spec fn distinct_keys(&self) -> bool {
        forall|i: int, j: int|
            0 <= i < j < self.entries.len() ==> self.entries[i].key@ != self.entries[j].key@
    }

    proof fn lemma_view_at(&self, i: int)
        requires
            self.distinct_keys(),
            0 <= i < self.entries.len(),
        ensures
            self@.contains_key(self.entries[i].key@),
            self@[self.entries[i].key@] == self.entries[i].record@,
    {
        assert(self.holds_at(i, self.entries[i].key@));
    }

    /// An empty store.
    pub fn new() -> (storage: Storage)
        ensures
            storage.wf(),
            storage@ == Map::<KeyView, RecordView>::empty(),
    {
        Storage { entries: Vec::new() }
    }

    fn find(&self, key: &StorageKey) -> (found: Option<usize>)
        requires
            self.distinct_keys(),
        ensures
            match found {
                Some(i) => self.holds_at(i as int, key@),
                None => !self@.contains_key(key@) && forall|j: int|
                    0 <= j < self.entries.len() ==> self.entries[j].key@ != key@,
            },
    {
        let mut i: usize = 0;
        while i < self.entries.len()
            invariant
                i <= self.entries.len(),
                forall|j: int| 0 <= j < i ==> self.entries[j].key@ != key@,
            decreases self.entries.len() - i,
        {
            if self.entries[i].key == *key {
                return Some(i);
            }
            i += 1;
        }
        None
    }

    /// The record under `key`, if there is one.
    pub fn get(&self, key: &StorageKey) -> (found: Option<Record>)
        requires
            self.distinct_keys(),
        ensures
            match found {
                Some(record) => self@.contains_key(key@) && self@[key@] == record@,
                None => !self@.contains_key(key@),
            },
    {
        match self.find(key) {
            Some(i) => {
                proof {
                    self.lemma_view_at(i as int);
                }
                Some(self.entries[i].record.clone())
            },
            None => None,
        }
    }

    proof fn lemma_put(before: Storage, after: Storage, k: KeyView, r: RecordView, at: int)
        requires
            before.distinct_keys(),
            0 <= at < after.entries.len(),
            after.entries[at].key@ == k,
            after.entries[at].record@ == r,
            forall|j: int|
                0 <= j < before.entries.len() && j != at ==> j < after.entries.len()
                    && after.entries[j] == before.entries[j],
            at < before.entries.len() ==> before.entries[at].key@ == k && after.entries.len()
                == before.entries.len(),
            at >= before.entries.len() ==> at == before.entries.len() && after.entries.len() == at
                + 1 && forall|j: int| 0 <= j < at ==> before.entries[j].key@ != k,
        ensures
            after.distinct_keys(),
            after@ == before@.insert(k, r),
    {
        assert forall|k2: KeyView|
            after@.contains_key(k2) == #[trigger] before@.insert(k, r).contains_key(k2) by {
            if before@.contains_key(k2) {
                let j = choose|j: int| before.holds_at(j, k2);
                assert(after.holds_at(j, k2));
            }
            if k2 == k {
                assert(after.holds_at(at, k2));
            }
            if after@.contains_key(k2) && k2 != k {
                let j = choose|j: int| after.holds_at(j, k2);
                assert(before.holds_at(j, k2));
            }
        }
        assert forall|k2: KeyView| after@.contains_key(k2) implies after@[k2] == before@.insert(
            k,
            r,
        )[k2] by {
            let j = choose|j: int| after.holds_at(j, k2);
            after.lemma_view_at(j);
            if k2 != k {
                before.lemma_view_at(j);
            }
        }
    }

    /// Writes `record` under `key`, in place of what was there.
    fn put(&mut self, key: StorageKey, record: Record)
        requires
            old(self).distinct_keys(),
        ensures
            final(self).distinct_keys(),
            final(self)@ == old(self)@.insert(key@, record@),
    {
        let ghost before = *self;
        let ghost k = key@;
        let ghost r = record@;
        match self.find(&key) {
            Some(i) => {
                self.entries[i] = Entry { key, record };
                proof {
                    Self::lemma_put(before, *self, k, r, i as int);
                }
            },
            None => {
                self.entries.push(Entry { key, record });
                proof {
                    Self::lemma_put(before, *self, k, r, before.entries.len() as int);
                }
            },
        }
    }
}

/// A list that holds nothing twice still does so when an item that it does
/// not hold joins its end, and it then holds that item beside the others.
pub proof fn lemma_push_absent<T>(items: Seq<T>, item: T)
    requires
        items.no_duplicates(),
        !items.contains(item),
    ensures
        items.push(item).no_duplicates(),
        forall|other: T| #[trigger]
            items.push(item).contains(other) <==> (other == item || items.contains(other)),
{
    let pushed = items.push(item);
    assert forall|other: T| #[trigger]
        pushed.contains(other) <==> (other == item || items.contains(other)) by {
        if items.contains(other) {
            let j = choose|j: int| 0 <= j < items.len() && items[j] == other;
            assert(pushed[j] == other);
        }
        if other == item {
            assert(pushed[items.len() as int] == other);
        }
    }
}

impl Storage {
    /// No key is held twice, and what is held is well formed.
    pub open spec fn wf(&self) -> bool {
        self.distinct_keys() && well_formed(self@)
    }

    /// The key of the hunt `hunt_id`.
    pub fn hunt_key(hunt_id: u64) -> (key: StorageKey)
        ensures
            key@ == KeyView::Hunt(hunt_id),
    {
        StorageKey::Hunt(hunt_id)
    }

    /// The key of the clue `clue_id` of the hunt `hunt_id`.
    pub fn clue_key(hunt_id: u64, clue_id: u32) -> (key: StorageKey)
        ensures
            key@ == KeyView::Clue(hunt_id, clue_id),
    {
        StorageKey::Clue(hunt_id, clue_id)
    }

    /// The key of the progress of `player` in the hunt `hunt_id`.
    pub fn progress_key(hunt_id: u64, player: &Address) -> (key: StorageKey)
        ensures
            key@ == KeyView::Progress(hunt_id, player@),
    {
        StorageKey::Progress(hunt_id, player.clone())
    }

    /// The key of the list of the clue identifiers of the hunt `hunt_id`.
    pub fn clues_list_key(hunt_id: u64) -> (key: StorageKey)
        ensures
            key@ == KeyView::CluesList(hunt_id),
    {
        StorageKey::CluesList(hunt_id)
    }

    /// The key of the list of the players of the hunt `hunt_id`.
    pub fn players_list_key(hunt_id: u64) -> (key: StorageKey)
        ensures
            key@ == KeyView::PlayersList(hunt_id),
    {
        StorageKey::PlayersList(hunt_id)
    }

    /// Saves `hunt` under its identifier, in place of what was there.
    pub fn save_hunt(&mut self, hunt: &Hunt)
        requires
            old(self).wf(),
        ensures
            final(self).wf(),
            final(self)@ == with_hunt(old(self)@, hunt@),
    {
        let ghost before = self@;
        let key = Self::hunt_key(hunt.hunt_id);
        self.put(key, Record::Hunt(hunt.clone()));
        proof {
            let after = self@;
            assert forall|hunt_id: u64, clue_id: u32|
                holds_clue(after, hunt_id, clue_id) == lists_clue(after, hunt_id, clue_id) by {
                assert(holds_clue(before, hunt_id, clue_id) == lists_clue(
                    before,
                    hunt_id,
                    clue_id,
                ));
            }
            assert forall|hunt_id: u64, player: Seq<char>|
                holds_progress(after, hunt_id, player) == lists_player(
                    after,
                    hunt_id,
                    player,
                ) by {
                assert(holds_progress(before, hunt_id, player) == lists_player(
                    before,
                    hunt_id,
                    player,
                ));
            }
        }
    }

    /// The hunt `hunt_id`, if the store holds it.
    pub fn get_hunt(&self, hunt_id: u64) -> (found: Option<Hunt>)
        requires
            self.wf(),
        ensures
            match found {
                Some(hunt) => hunt_of(self@, hunt_id) == Some(hunt@),
                None => hunt_of(self@, hunt_id) is None,
            },
    {
        let key = Self::hunt_key(hunt_id);
        match self.get(&key) {
            Some(Record::Hunt(hunt)) => Some(hunt),
            _ => None,
        }
    }

    /// The hunt `hunt_id`, or the failure that names it as missing.
    pub fn get_hunt_or_error(&self, hunt_id: u64) -> (found: Result<Hunt, HuntError>)
        requires
            self.wf(),
        ensures
            match found {
                Ok(hunt) => hunt_of(self@, hunt_id) == Some(hunt@),
                Err(err) => hunt_of(self@, hunt_id) is None && err == (HuntError::HuntNotFound {
                    hunt_id,
                }),
            },
    {
        match self.get_hunt(hunt_id) {
            Some(hunt) => Ok(hunt),
            None => Err(HuntError::HuntNotFound { hunt_id }),
        }
    }

    /// Saves `clue` as a clue of the hunt `hunt_id`, in place of the clue
    /// that had its identifier, and lists the identifier for the hunt.
    pub fn save_clue(&mut self, hunt_id: u64, clue: &Clue)
        requires
            old(self).wf(),
        ensures
            final(self).wf(),
            final(self)@ == with_clue(old(self)@, hunt_id, clue@),
    {
        let ghost before = self@;
        let key = Self::clue_key(hunt_id, clue.clue_id);
        self.put(key, Record::Clue(clue.clone()));
        self.add_clue_to_list(hunt_id, clue.clue_id);
        proof {
            let after = self@;
            let ids = clue_ids_of(before, hunt_id);
            if !ids.contains(clue.clue_id) {
                lemma_push_absent(ids, clue.clue_id);
            }
            assert forall|h: u64, c: u32|
                holds_clue(after, h, c) == lists_clue(after, h, c) by {
                assert(holds_clue(before, h, c) == lists_clue(before, h, c));
            }
            assert forall|h: u64, player: Seq<char>|
                holds_progress(after, h, player) == lists_player(after, h, player) by {
                assert(holds_progress(before, h, player) == lists_player(before, h, player));
            }
        }
    }

    /// The clue `clue_id` of the hunt `hunt_id`, if the store holds it.
    pub fn get_clue(&self, hunt_id: u64, clue_id: u32) -> (found: Option<Clue>)
        requires
            self.wf(),
        ensures
            match found {
                Some(clue) => clue_of(self@, hunt_id, clue_id) == Some(clue@),
                None => clue_of(self@, hunt_id, clue_id) is None,
            },
    {
        let key = Self::clue_key(hunt_id, clue_id);
        match self.get(&key) {
            Some(Record::Clue(clue)) => Some(clue),
            _ => None,
        }
    }

    /// The clue `clue_id` of the hunt `hunt_id`, or the failure that names
    /// the hunt.
    pub fn get_clue_or_error(&self, hunt_id: u64, clue_id: u32) -> (found: Result<
        Clue,
        HuntError,
    >)
        requires
            self.wf(),
        ensures
            match found {
                Ok(clue) => clue_of(self@, hunt_id, clue_id) == Some(clue@),
                Err(err) => clue_of(self@, hunt_id, clue_id) is None && err == (
                HuntError::ClueNotFound { hunt_id }),
            },
    {
        match self.get_clue(hunt_id, clue_id) {
            Some(clue) => Ok(clue),
            None => Err(HuntError::ClueNotFound { hunt_id }),
        }
    }

    /// The clues of the hunt `hunt_id`, in the order in which their
    /// identifiers were first saved.
    pub fn list_clues_for_hunt(&self, hunt_id: u64) -> (clues: Vec<Clue>)
        requires
            self.wf(),
        ensures
            clue_views(clues@) == clues_listed(self@, hunt_id),
            clues.len() == clue_ids_of(self@, hunt_id).len(),
    {
        let clue_ids = self.get_clue_ids_for_hunt(hunt_id);
        let mut clues: Vec<Clue> = Vec::new();
        let mut i: usize = 0;
        while i < clue_ids.len()
            invariant
                self.wf(),
                clue_ids@ == clue_ids_of(self@, hunt_id),
                i <= clue_ids.len(),
                clues.len() == i,
                forall|j: int|
                    0 <= j < i ==> clue_of(self@, hunt_id, clue_ids[j]) == Some(
                        (#[trigger] clues[j])@,
                    ),
            decreases clue_ids.len() - i,
        {
            let clue_id = clue_ids[i];
            proof {
                assert(holds_clue(self@, hunt_id, clue_id));
            }
            if let Some(clue) = self.get_clue(hunt_id, clue_id) {
                clues.push(clue);
            }
            i += 1;
        }
        clues
    }

    /// Saves `progress` under its hunt and its player, in place of what was
    /// there, and lists the player for the hunt.
    pub fn save_player_progress(&mut self, progress: &PlayerProgress)
        requires
            old(self).wf(),
        ensures
            final(self).wf(),
            final(self)@ == with_progress(old(self)@, progress@),
    {
        let ghost before = self@;
        let key = Self::progress_key(progress.hunt_id, &progress.player);
        self.put(key, Record::Progress(progress.clone()));
        self.add_player_to_list(progress.hunt_id, &progress.player);
        proof {
            let after = self@;
            let players = players_of(before, progress.hunt_id);
            if !players.contains(progress.player@) {
                lemma_push_absent(players, progress.player@);
            }
            assert forall|h: u64, c: u32|
                holds_clue(after, h, c) == lists_clue(after, h, c) by {
                assert(holds_clue(before, h, c) == lists_clue(before, h, c));
            }
            assert forall|h: u64, player: Seq<char>|
                holds_progress(after, h, player) == lists_player(after, h, player) by {
                assert(holds_progress(before, h, player) == lists_player(before, h, player));
            }
        }
    }

    /// The progress of `player` in the hunt `hunt_id`, if the store holds
    /// it.
    pub fn get_player_progress(&self, hunt_id: u64, player: &Address) -> (found: Option<
        PlayerProgress,
    >)
        requires
            self.wf(),
        ensures
            match found {
                Some(progress) => progress_of(self@, hunt_id, player@) == Some(progress@),
                None => progress_of(self@, hunt_id, player@) is None,
            },
    {
        let key = Self::progress_key(hunt_id, player);
        match self.get(&key) {
            Some(Record::Progress(progress)) => Some(progress),
            _ => None,
        }
    }

    /// The progress of `player` in the hunt `hunt_id`, or the failure that
    /// says that the player has not joined the hunt.
    pub fn get_player_progress_or_error(&self, hunt_id: u64, player: &Address) -> (found: Result<
        PlayerProgress,
        HuntError,
    >)
        requires
            self.wf(),
        ensures
            match found {
                Ok(progress) => progress_of(self@, hunt_id, player@) == Some(progress@),
                Err(err) => progress_of(self@, hunt_id, player@) is None && err == (
                HuntError::PlayerNotRegistered { hunt_id }),
            },
    {
        match self.get_player_progress(hunt_id, player) {
            Some(progress) => Ok(progress),
            None => Err(HuntError::PlayerNotRegistered { hunt_id }),
        }
    }

    /// The progress of the players of the hunt `hunt_id`, in the order in
    /// which the players were first saved.
    pub fn get_hunt_players(&self, hunt_id: u64) -> (progress_list: Vec<PlayerProgress>)
        requires
            self.wf(),
        ensures
            progress_views(progress_list@) == progress_listed(self@, hunt_id),
            progress_list.len() == players_of(self@, hunt_id).len(),
    {
        let player_addresses = self.get_player_addresses_for_hunt(hunt_id);
        let mut progress_list: Vec<PlayerProgress> = Vec::new();
        let mut i: usize = 0;
        while i < player_addresses.len()
            invariant
                self.wf(),
                address_views(player_addresses@) == players_of(self@, hunt_id),
                i <= player_addresses.len(),
                progress_list.len() == i,
                forall|j: int|
                    0 <= j < i ==> progress_of(self@, hunt_id, player_addresses[j]@) == Some(
                        (#[trigger] progress_list[j])@,
                    ),
            decreases player_addresses.len() - i,
        {
            proof {
                let player = player_addresses[i as int]@;
                assert(address_views(player_addresses@)[i as int] == player);
                assert(holds_progress(self@, hunt_id, player));
            }
            if let Some(progress) = self.get_player_progress(hunt_id, &player_addresses[i]) {
                progress_list.push(progress);
            }
            i += 1;
        }
        progress_list
    }

    /// Lists `clue_id` for the hunt `hunt_id`, at the end, unless it is
    /// listed.
    fn add_clue_to_list(&mut self, hunt_id: u64, clue_id: u32)
        requires
            old(self).distinct_keys(),
        ensures
            final(self).distinct_keys(),
            final(self)@ == if clue_ids_of(old(self)@, hunt_id).contains(clue_id) {
                old(self)@
            } else {
                old(self)@.insert(
                    KeyView::CluesList(hunt_id),
                    RecordView::ClueIds(clue_ids_of(old(self)@, hunt_id).push(clue_id)),
                )
            },
    {
        let key = Self::clues_list_key(hunt_id);
        let mut clue_ids = self.get_clue_ids_for_hunt(hunt_id);

        let mut exists = false;
        let mut i: usize = 0;
        while i < clue_ids.len()
            invariant_except_break
                !exists,
                i <= clue_ids.len(),
                forall|j: int| 0 <= j < i ==> clue_ids[j] != clue_id,
            ensures
                exists == clue_ids@.contains(clue_id),
            decreases clue_ids.len() - i,
        {
            if clue_ids[i] == clue_id {
                exists = true;
                break ;
            }
            i += 1;
        }

        if !exists {
            clue_ids.push(clue_id);
            self.put(key, Record::ClueIds(clue_ids));
        }
    }

    /// The clue identifiers listed for the hunt `hunt_id`.
    pub fn get_clue_ids_for_hunt(&self, hunt_id: u64) -> (clue_ids: Vec<u32>)
        requires
            self.distinct_keys(),
        ensures
            clue_ids@ == clue_ids_of(self@, hunt_id),
    {
        let key = Self::clues_list_key(hunt_id);
        match self.get(&key) {
            Some(Record::ClueIds(clue_ids)) => clue_ids,
            _ => Vec::new(),
        }
    }

    /// Lists `player` for the hunt `hunt_id`, at the end, unless the
    /// player is listed.
    fn add_player_to_list(&mut self, hunt_id: u64, player: &Address)
        requires
            old(self).distinct_keys(),
        ensures
            final(self).distinct_keys(),
            final(self)@ == if players_of(old(self)@, hunt_id).contains(player@) {
                old(self)@
            } else {
                old(self)@.insert(
                    KeyView::PlayersList(hunt_id),
                    RecordView::Players(players_of(old(self)@, hunt_id).push(player@)),
                )
            },
    {
        let key = Self::players_list_key(hunt_id);
        let mut players = self.get_player_addresses_for_hunt(hunt_id);
        let ghost listed = players_of(self@, hunt_id);

        let mut exists = false;
        let mut i: usize = 0;
        while i < players.len()
            invariant_except_break
                !exists,
                i <= players.len(),
                forall|j: int| 0 <= j < i ==> players[j]@ != player@,
            invariant
                address_views(players@) == listed,
            ensures
                exists == listed.contains(player@),
            decreases players.len() - i,
        {
            if players[i] == *player {
                exists = true;
                proof {
                    assert(address_views(players@)[i as int] == player@);
                }
                break ;
            }
            i += 1;
        }

        if !exists {
            players.push(player.clone());
            assert(address_views(players@) =~= listed.push(player@));
            self.put(key, Record::Players(players));
        }
    }

    /// The players listed for the hunt `hunt_id`.
    pub fn get_player_addresses_for_hunt(&self, hunt_id: u64) -> (players: Vec<Address>)
        requires
            self.distinct_keys(),
        ensures
            address_views(players@) == players_of(self@, hunt_id),
    {
        let key = Self::players_list_key(hunt_id);
        match self.get(&key) {
            Some(Record::Players(players)) => players,
            _ => {
                let players: Vec<Address> = Vec::new();
                players
            },
        }
    }

    /// Counts one more clue for the hunt `hunt_id`. Nothing changes, and
    /// the answer is `false`, where the store does not hold the hunt or the
    /// count cannot grow.
    pub fn increment_total_clues(&mut self, hunt_id: u64) -> (counted: bool)
        requires
            old(self).wf(),
        ensures
            final(self).wf(),
            match hunt_of(old(self)@, hunt_id) {
                Some(hunt) if hunt.total_clues < u32::MAX => counted && final(self)@ == with_hunt(
                    old(self)@,
                    HuntView { total_clues: (hunt.total_clues + 1) as u32, ..hunt },
                ),
                _ => !counted && final(self)@ == old(self)@,
            },
    {
        match self.get_hunt(hunt_id) {
            Some(mut hunt) => {
                if hunt.total_clues < u32::MAX {
                    hunt.total_clues += 1;
                    self.save_hunt(&hunt);
                    true
                } else {
                    false
                }
            },
            None => false,
        }
    }

    /// Hands out the next hunt identifier: one more than the last, the
    /// first being 1.
    pub fn next_hunt_id(&mut self) -> (hunt_id: u64)
        requires
            old(self).wf(),
            counter_of(old(self)@) < u64::MAX,
        ensures
            final(self).wf(),
            hunt_id == counter_of(old(self)@) + 1,
            final(self)@ == with_next_hunt_id(old(self)@),
    {
        let current = self.get_hunt_counter();
        let next = current + 1;
        self.set_hunt_counter(next);
        next
    }

    /// Sets the number of hunt identifiers handed out so far, as when the
    /// store is filled from records that were kept elsewhere.
    pub fn set_hunt_counter(&mut self, count: u64)
        requires
            old(self).wf(),
        ensures
            final(self).wf(),
            final(self)@ == old(self)@.insert(KeyView::HuntCounter, RecordView::Counter(count)),
    {
        let ghost before = self@;
        self.put(StorageKey::HuntCounter, Record::Counter(count));
        proof {
            let after = self@;
            assert forall|h: u64, c: u32|
                holds_clue(after, h, c) == lists_clue(after, h, c) by {
                assert(holds_clue(before, h, c) == lists_clue(before, h, c));
            }
            assert forall|h: u64, player: Seq<char>|
                holds_progress(after, h, player) == lists_player(after, h, player) by {
                assert(holds_progress(before, h, player) == lists_player(before, h, player));
            }
        }
    }

    /// The number of hunt identifiers handed out so far.
    pub fn get_hunt_counter(&self) -> (count: u64)
        requires
            self.distinct_keys(),
        ensures
            count == counter_of(self@),
    {
        match self.get(&StorageKey::HuntCounter) {
            Some(Record::Counter(count)) => count,
            _ => 0,
        }
    }
}

} // verus!
