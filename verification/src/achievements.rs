//! The achievement rules, evaluated over a decoded save document.
//!
//! Every function here only reads the document. Each yields plain values
//! (counts, states) and leaves their rendering to the caller.

use crate::creature::Creature;
use crate::savedata::{THItemRecord, THItemType, THSaveData, THSpeedrunCheckpoint};
use crate::text::str_eq;
use vstd::prelude::*;

verus! {

/// Health nodes in the game.
pub const ACHIEVEMENT_ALL_HEALTH: u64 = 13;

/// Lore notes in the game.
pub const ACHIEVEMENT_ALL_NOTES: u64 = 28;

/// Power nodes in the game.
pub const ACHIEVEMENT_ALL_POWER: u64 = 9;

/// Range nodes in the game.
pub const ACHIEVEMENT_ALL_RANGE: u64 = 4;

/// Size nodes in the game.
pub const ACHIEVEMENT_ALL_SIZE: u64 = 4;

/// Tools and permanent upgrades in the game.
pub const ACHIEVEMENT_ALL_TOOLS: u64 = 16;

/// Weapons in the game.
pub const ACHIEVEMENT_ALL_WEAPONS: u64 = 20;

/// Everything that counts towards item completion: the seven tallies
/// above taken together.
pub const ACHIEVEMENT_ALL_ITEMS: u64 = 94;

/// Bricks to destroy for Brick Breaker.
pub const ACHIEVEMENT_BRICK_BREAKER: u64 = 2000;

/// Bubbles to destroy for Bubble Breaker.
pub const ACHIEVEMENT_BUBBLE_BREAKER: u64 = 2000;

/// Creatures to glitch for Hack.
pub const ACHIEVEMENT_HACK: u64 = 1;

/// Deaths that Mostly Invincible allows.
pub const ACHIEVEMENT_MAX_DEATHS: i32 = 1;

/// Node fragments that make up one node.
pub const FRAGMENTS_PER_NODE: usize = 5;

/// Whether a boss has been defeated.
#[derive(Clone, Copy, Debug, PartialEq, Eq, Structural)]
pub enum BossState {
    Alive,
    Dead,
}

impl BossState {
    /// The word a report shows for the state.
    pub open spec fn spec_label(self) -> Seq<char> {
        match self {
            BossState::Alive => "Alive"@,
            BossState::Dead => "Dead"@,
        }
    }

    /// The word a report shows for the state.
    pub fn label(&self) -> (s: &'static str)
        ensures
            s@ == self.spec_label(),
    {
        match self {
            BossState::Alive => "Alive",
            BossState::Dead => "Dead",
        }
    }
}

impl From<bool> for BossState {
    fn from(dead: bool) -> (state: BossState) {
        if dead {
            BossState::Dead
        } else {
            BossState::Alive
        }
    }
}

impl vstd::std_specs::convert::FromSpecImpl<bool> for BossState {
    open spec fn obeys_from_spec() -> bool {
        true
    }

    open spec fn from_spec(dead: bool) -> BossState {
        if dead {
            BossState::Dead
        } else {
            BossState::Alive
        }
    }
}

/// Whether an achievement that a playthrough can forfeit is still within
/// reach.
#[derive(Clone, Copy, Debug, PartialEq, Eq, Structural)]
pub enum Status {
    /// Nothing has forfeited the achievement so far.
    Intact,
    /// The playthrough can no longer earn the achievement.
    Failed,
}

impl Status {
    /// The word a report shows for the status.
    pub open spec fn spec_label(self) -> Seq<char> {
        match self {
            Status::Intact => "OK"@,
            Status::Failed => "Failed"@,
        }
    }

    /// The word a report shows for the status.
    pub fn label(&self) -> (s: &'static str)
        ensures
            s@ == self.spec_label(),
    {
        match self {
            Status::Intact => "OK",
            Status::Failed => "Failed",
        }
    }
}

/// The share `current / needed` in hundredths of a percent, rounded to the
/// nearest hundredth with halves away from zero. There is none where
/// `needed` is zero.
pub open spec fn percent_hundredths(current: int, needed: int) -> Option<int> {
    if needed == 0 {
        None
    } else {
        let num = if current < 0 {
            -current * 10000
        } else {
            current * 10000
        };
        let den = if needed < 0 {
            -needed
        } else {
            needed
        };
        let magnitude = (2 * num + den) / (2 * den);
        if (current < 0) != (needed < 0) {
            Some(-magnitude)
        } else {
            Some(magnitude)
        }
    }
}

/// How far a counted achievement has come.
#[derive(Clone, Copy, Debug, PartialEq, Eq, Structural)]
pub struct Progress {
    pub current: u64,
    pub needed: u64,
}

impl Progress {
    /// The progress in hundredths of a percent.
    pub open spec fn spec_percent_hundredths(self) -> Option<int> {
        percent_hundredths(self.current as int, self.needed as int)
    }

    /// The progress in hundredths of a percent: `5000` stands for 50.00 %.
    /// There is none where nothing is needed.
    pub fn percent_hundredths(&self) -> (percent: Option<u128>)
        ensures
            match percent {
                Some(p) => self.spec_percent_hundredths() == Some(p as int),
                None => self.spec_percent_hundredths().is_none(),
            },
    {
        if self.needed == 0 {
            None
        } else {
            let num: u128 = self.current as u128 * 10000;
            let den: u128 = self.needed as u128;
            Some((2 * num + den) / (2 * den))
        }
    }
}

/// How much of the map has been uncovered, in screens. The counts are kept
/// as the document gives them.
#[derive(Clone, Copy, Debug, PartialEq, Eq, Structural)]
pub struct ScreenProgress {
    pub current: i32,
    pub needed: i32,
}

impl ScreenProgress {
    /// The progress in hundredths of a percent.
    pub open spec fn spec_percent_hundredths(self) -> Option<int> {
        percent_hundredths(self.current as int, self.needed as int)
    }

    /// The progress in hundredths of a percent: `5000` stands for 50.00 %.
    /// There is none where the document counts no screens at all.
    pub fn percent_hundredths(&self) -> (percent: Option<i64>)
        ensures
            match percent {
                Some(p) => self.spec_percent_hundredths() == Some(p as int),
                None => self.spec_percent_hundredths().is_none(),
            },
    {
        if self.needed == 0 {
            None
        } else {
            let current: i64 = self.current as i64;
            let needed: i64 = self.needed as i64;
            let num: u64 = if current < 0 {
                (-current) as u64 * 10000
            } else {
                current as u64 * 10000
            };
            let den: u64 = if needed < 0 {
                (-needed) as u64
            } else {
                needed as u64
            };
            let magnitude: u64 = (2 * num + den) / (2 * den);
            assert(magnitude <= 2 * num + den) by (nonlinear_arith)
                requires
                    magnitude == (2 * num + den) / (2 * den),
                    den >= 1,
            ;
            if (current < 0) != (needed < 0) {
                Some(-(magnitude as i64))
            } else {
                Some(magnitude as i64)
            }
        }
    }
}

/// The Low % achievement: item completion, and whether it is still low
/// enough.
#[derive(Clone, Copy, Debug, PartialEq, Eq, Structural)]
pub struct LowPercent {
    pub progress: Progress,
    pub status: Status,
}

/// The Mostly Invincible achievement: deaths so far, deaths allowed, and
/// whether the allowance is kept.
#[derive(Clone, Copy, Debug, PartialEq, Eq, Structural)]
pub struct MostlyInvincible {
    pub deaths: i32,
    pub maximum: i32,
    pub status: Status,
}

/// The Pacifist achievement: the state of the Clone, and whether it has
/// been spared.
#[derive(Clone, Copy, Debug, PartialEq, Eq, Structural)]
pub struct Pacifist {
    pub state: BossState,
    pub status: Status,
}

/// One boss of the report: the name the checkpoint log knows it by, the
/// name a report shows, and its state.
#[derive(Clone, Copy, Debug)]
pub struct BossReport {
    pub name: &'static str,
    pub label: &'static str,
    pub state: BossState,
}

/// Everything the achievement rules say about one save document.
#[derive(Debug)]
pub struct AchievementReport {
    pub all_health: Progress,
    pub all_items: Progress,
    pub all_map: ScreenProgress,
    pub all_notes: Progress,
    pub all_power: Progress,
    pub all_tools: Progress,
    pub all_weapons: Progress,
    pub brick_breaker: Progress,
    pub bubble_breaker: Progress,
    pub hack: Progress,
    pub hacker: Progress,
    pub low_percent: LowPercent,
    pub mostly_invincible: MostlyInvincible,
    /// Left out of the short report.
    pub pacifist: Option<Pacifist>,
    /// One entry for each boss of `boss_names`, in that order.
    pub bosses: Vec<BossReport>,
}

/// The bosses whose defeat a save document records, by the names the
/// checkpoint log uses. The last boss is not among them: the game does not
/// save after his defeat.
pub open spec fn boss_names() -> Seq<Seq<char>> {
    seq![
        "Xedur"@,
        "Telal"@,
        "Uruku"@,
        "Gir-Tab"@,
        "Vision"@,
        "Clone"@,
        "Ukhu"@,
        "Sentinel"@,
    ]
}

/// The bosses whose defeat a save document records.
pub fn bosses() -> (names: Vec<&'static str>)
    ensures
        names@.len() == boss_names().len(),
        forall|i: int| 0 <= i < names@.len() ==> (#[trigger] names@[i])@ == boss_names()[i],
{
    vec!["Xedur", "Telal", "Uruku", "Gir-Tab", "Vision", "Clone", "Ukhu", "Sentinel"]
}

/// The name a report shows for a boss: "Vision" is shown as
/// "Hallucination", every other name as it is.
pub open spec fn spec_boss_label(boss: Seq<char>) -> Seq<char> {
    if boss == "Vision"@ {
        "Hallucination"@
    } else {
        boss
    }
}

/// The name a report shows for a boss. Only the label changes: the
/// checkpoint log is searched for the name itself.
pub fn boss_label<'a>(boss: &'a str) -> (label: &'a str)
    ensures
        label@ == spec_boss_label(boss@),
{
    if str_eq(boss, "Vision") {
        "Hallucination"
    } else {
        boss
    }
}

/// Whether one of `entries` is named `name`.
pub open spec fn has_checkpoint(entries: Seq<THSpeedrunCheckpoint>, name: Seq<char>) -> bool {
    exists|i: int| 0 <= i < entries.len() && (#[trigger] entries[i]).name@ == name
}

/// Whether the checkpoint log holds an entry named `boss`. A document
/// without a log holds none.
pub open spec fn spec_boss_dead(log: Option<Vec<THSpeedrunCheckpoint>>, boss: Seq<char>) -> bool {
    match log {
        Some(entries) => has_checkpoint(entries@, boss),
        None => false,
    }
}

/// The state of `boss` according to the checkpoint log.
pub open spec fn spec_boss_state(log: Option<Vec<THSpeedrunCheckpoint>>, boss: Seq<char>) -> BossState {
    if spec_boss_dead(log, boss) {
        BossState::Dead
    } else {
        BossState::Alive
    }
}

/// The records that a tally of category `category` counts: those of that
/// category that are not excluded from counting.
pub open spec fn counted_as(category: THItemType) -> spec_fn(THItemRecord) -> bool {
    |record: THItemRecord| record.type_ == category && !record.excluded_from_count
}

/// How many records of `items` count towards `category`.
pub open spec fn spec_item_type_count(items: Seq<THItemRecord>, category: THItemType) -> nat {
    items.filter(counted_as(category)).len()
}

/// The whole nodes that `fragments` fragments make up. A group short of
/// five fragments makes up nothing.
pub open spec fn fold_fragments(fragments: nat) -> nat {
    fragments / 5
}

/// Health nodes collected, fragments folded in.
pub open spec fn health_total(items: Seq<THItemRecord>) -> nat {
    spec_item_type_count(items, THItemType::HealthNode) + fold_fragments(
        spec_item_type_count(items, THItemType::HealthNodeFragment),
    )
}

/// Power nodes collected, fragments folded in.
pub open spec fn power_total(items: Seq<THItemRecord>) -> nat {
    spec_item_type_count(items, THItemType::PowerNode) + fold_fragments(
        spec_item_type_count(items, THItemType::PowerNodeFragment),
    )
}

/// Tools and permanent upgrades collected.
pub open spec fn tools_total(items: Seq<THItemRecord>) -> nat {
    spec_item_type_count(items, THItemType::Tool) + spec_item_type_count(
        items,
        THItemType::PermanentUpgrade,
    )
}

/// Everything collected that counts towards item completion: health,
/// notes, power, range, size, tools with upgrades, and weapons.
pub open spec fn items_total(items: Seq<THItemRecord>) -> nat {
    health_total(items) + spec_item_type_count(items, THItemType::Lore) + power_total(items)
        + spec_item_type_count(items, THItemType::RangeNode) + spec_item_type_count(
        items,
        THItemType::SizeNode,
    ) + tools_total(items) + spec_item_type_count(items, THItemType::Weapon)
}

/// A destruction counter as Brick Breaker and Bubble Breaker report it:
/// never above 2000, and never below zero.
pub open spec fn clamp_counter(counter: int) -> int {
    if counter < 0 {
        0
    } else if counter > 2000 {
        2000
    } else {
        counter
    }
}

/// Whether item completion has left the range of Low %: at 40 percent it
/// has.
pub open spec fn low_percent_failed(progress: Progress) -> bool {
    progress.current * 100 >= 40 * progress.needed
}

/// The creatures that are not in `glitched`.
pub open spec fn not_glitched(glitched: Seq<Creature>) -> spec_fn(Creature) -> bool {
    |c: Creature| !glitched.contains(c)
}

/// The creatures still to glitch for Hacker: those of the Hacker list that
/// the glitch log lacks, in the order of the list. A document without a
/// glitch log gives `None`, which stands for "all of them" and is distinct
/// from a log that happens to hold none of the list.
pub open spec fn spec_hacker_requires(glitched: Option<Vec<Creature>>) -> Option<Seq<Creature>> {
    match glitched {
        Some(log) => Some(Creature::spec_achievement_list().filter(not_glitched(log@))),
        None => None,
    }
}

/// The length of the glitch log; zero where the document has none.
pub open spec fn glitched_len(glitched: Option<Vec<Creature>>) -> nat {
    match glitched {
        Some(log) => log@.len(),
        None => 0,
    }
}

/// The word for a number of deaths.
pub open spec fn spec_death_noun(deaths: int) -> Seq<char> {
    if deaths == 1 {
        "death"@
    } else {
        "deaths"@
    }
}

/// The word for a number of deaths: "death" for exactly one.
pub fn death_noun(deaths: i32) -> (noun: &'static str)
    ensures
        noun@ == spec_death_noun(deaths as int),
{
    if deaths == 1 {
        "death"
    } else {
        "deaths"
    }
}

/// The word for a number of creatures.
pub open spec fn spec_creature_noun(count: nat) -> Seq<char> {
    if count > 1 {
        "creatures"@
    } else {
        "creature"@
    }
}

/// The word for a number of creatures: "creatures" for more than one.
pub fn creature_noun(count: usize) -> (noun: &'static str)
    ensures
        noun@ == spec_creature_noun(count as nat),
{
    if count > 1 {
        "creatures"
    } else {
        "creature"
    }
}

/// The categories that item completion counts, taken together, never count
/// more records than there are: a record counts towards one category at
/// most.
pub proof fn lemma_counts_bounded(items: Seq<THItemRecord>)
    ensures
        spec_item_type_count(items, THItemType::HealthNode) + spec_item_type_count(
            items,
            THItemType::HealthNodeFragment,
        ) + spec_item_type_count(items, THItemType::Lore) + spec_item_type_count(
            items,
            THItemType::PowerNode,
        ) + spec_item_type_count(items, THItemType::PowerNodeFragment) + spec_item_type_count(
            items,
            THItemType::RangeNode,
        ) + spec_item_type_count(items, THItemType::SizeNode) + spec_item_type_count(
            items,
            THItemType::Tool,
        ) + spec_item_type_count(items, THItemType::PermanentUpgrade) + spec_item_type_count(
            items,
            THItemType::Weapon,
        ) <= items.len(),
        items_total(items) <= items.len(),
    decreases items.len(),
{
    if items.len() == 0 {
        items.lemma_filter_len(counted_as(THItemType::HealthNode));
        items.lemma_filter_len(counted_as(THItemType::HealthNodeFragment));
        items.lemma_filter_len(counted_as(THItemType::Lore));
        items.lemma_filter_len(counted_as(THItemType::PowerNode));
        items.lemma_filter_len(counted_as(THItemType::PowerNodeFragment));
        items.lemma_filter_len(counted_as(THItemType::RangeNode));
        items.lemma_filter_len(counted_as(THItemType::SizeNode));
        items.lemma_filter_len(counted_as(THItemType::Tool));
        items.lemma_filter_len(counted_as(THItemType::PermanentUpgrade));
        items.lemma_filter_len(counted_as(THItemType::Weapon));
    } else {
        let init = items.drop_last();
        let last = items.last();
        assert(items =~= init.push(last));
        lemma_counts_bounded(init);
        init.lemma_filter_len_push(counted_as(THItemType::HealthNode), last);
        init.lemma_filter_len_push(counted_as(THItemType::HealthNodeFragment), last);
        init.lemma_filter_len_push(counted_as(THItemType::Lore), last);
        init.lemma_filter_len_push(counted_as(THItemType::PowerNode), last);
        init.lemma_filter_len_push(counted_as(THItemType::PowerNodeFragment), last);
        init.lemma_filter_len_push(counted_as(THItemType::RangeNode), last);
        init.lemma_filter_len_push(counted_as(THItemType::SizeNode), last);
        init.lemma_filter_len_push(counted_as(THItemType::Tool), last);
        init.lemma_filter_len_push(counted_as(THItemType::PermanentUpgrade), last);
        init.lemma_filter_len_push(counted_as(THItemType::Weapon), last);
    }
}

/// Folding drops what is short of a whole group and rounds nothing up:
/// the nodes made up account for the fragments but for fewer than five.
pub proof fn lemma_fold_fragments(fragments: nat)
    ensures
        5 * fold_fragments(fragments) <= fragments < 5 * fold_fragments(fragments) + 5,
{
}

/// A record that is excluded from counting changes no count, whatever its
/// category.
pub proof fn lemma_excluded_not_counted(
    items: Seq<THItemRecord>,
    record: THItemRecord,
    category: THItemType,
)
    requires
        record.excluded_from_count,
    ensures
        spec_item_type_count(items.push(record), category) == spec_item_type_count(
            items,
            category,
        ),
        items_total(items.push(record)) == items_total(items),
{
    items.lemma_filter_len_push(counted_as(category), record);
    items.lemma_filter_len_push(counted_as(THItemType::HealthNode), record);
    items.lemma_filter_len_push(counted_as(THItemType::HealthNodeFragment), record);
    items.lemma_filter_len_push(counted_as(THItemType::Lore), record);
    items.lemma_filter_len_push(counted_as(THItemType::PowerNode), record);
    items.lemma_filter_len_push(counted_as(THItemType::PowerNodeFragment), record);
    items.lemma_filter_len_push(counted_as(THItemType::RangeNode), record);
    items.lemma_filter_len_push(counted_as(THItemType::SizeNode), record);
    items.lemma_filter_len_push(counted_as(THItemType::Tool), record);
    items.lemma_filter_len_push(counted_as(THItemType::PermanentUpgrade), record);
    items.lemma_filter_len_push(counted_as(THItemType::Weapon), record);
}

/// Taking one record out of a sequence lowers the count of a category by
/// one if the record counts towards it, and not at all otherwise.
pub proof fn lemma_count_remove(items: Seq<THItemRecord>, category: THItemType, i: int)
    requires
        0 <= i < items.len(),
    ensures
        spec_item_type_count(items, category) == spec_item_type_count(items.remove(i), category)
            + if counted_as(category)(items[i]) {
            1nat
        } else {
            0nat
        },
{
    let pred = counted_as(category);
    let front = items.take(i);
    let back = items.skip(i + 1);
    assert(items =~= front.push(items[i]) + back);
    assert(items.remove(i) =~= front + back);
    Seq::filter_distributes_over_add(front.push(items[i]), back, pred);
    Seq::filter_distributes_over_add(front, back, pred);
    front.lemma_filter_len_push(pred, items[i]);
}

/// The count of a category does not depend on the order of the records:
/// two sequences that hold the same records, in whatever order, give the
/// same count.
pub proof fn lemma_count_permutation(
    a: Seq<THItemRecord>,
    b: Seq<THItemRecord>,
    category: THItemType,
)
    requires
        a.to_multiset() == b.to_multiset(),
    ensures
        spec_item_type_count(a, category) == spec_item_type_count(b, category),
    decreases a.len(),
{
    broadcast use vstd::seq_lib::group_to_multiset_ensures;

    a.to_multiset_ensures();
    b.to_multiset_ensures();
    if a.len() == 0 {
        assert(b.to_multiset().len() == 0);
        assert(b.len() == 0);
        assert(a =~= b);
    } else {
        let last = a.last();
        assert(a.to_multiset().count(last) > 0);
        assert(b.contains(last));
        let i = b.index_of(last);
        assert(a.drop_last() =~= a.remove(a.len() - 1));
        lemma_count_permutation(a.drop_last(), b.remove(i), category);
        lemma_count_remove(a, category, a.len() - 1);
        lemma_count_remove(b, category, i);
    }
}

/// Item completion does not depend on the order of the records either.
pub proof fn lemma_items_total_permutation(a: Seq<THItemRecord>, b: Seq<THItemRecord>)
    requires
        a.to_multiset() == b.to_multiset(),
    ensures
        health_total(a) == health_total(b),
        power_total(a) == power_total(b),
        tools_total(a) == tools_total(b),
        items_total(a) == items_total(b),
{
    lemma_count_permutation(a, b, THItemType::HealthNode);
    lemma_count_permutation(a, b, THItemType::HealthNodeFragment);
    lemma_count_permutation(a, b, THItemType::Lore);
    lemma_count_permutation(a, b, THItemType::PowerNode);
    lemma_count_permutation(a, b, THItemType::PowerNodeFragment);
    lemma_count_permutation(a, b, THItemType::RangeNode);
    lemma_count_permutation(a, b, THItemType::SizeNode);
    lemma_count_permutation(a, b, THItemType::Tool);
    lemma_count_permutation(a, b, THItemType::PermanentUpgrade);
    lemma_count_permutation(a, b, THItemType::Weapon);
}

/// The achievement rules over one save document.
pub struct Achievements<'a> {
    savedata: &'a THSaveData,
}

impl<'a> Achievements<'a> {
    /// The document the rules are evaluated over.
    pub closed spec fn savedata(&self) -> THSaveData {
        *self.savedata
    }

    /// The rules over `savedata`.
    pub fn new(savedata: &'a THSaveData) -> (engine: Self)
        ensures
            engine.savedata() == *savedata,
    {
        Self { savedata }
    }

    /// The state of the boss that the checkpoint log knows as `boss`: dead
    /// if any entry of the log bears that name, alive otherwise, and alive
    /// where the document has no log. The log is kept whether or not the
    /// playthrough is a speedrun.
    pub fn boss_state(&self, boss: &str) -> (state: BossState)
        ensures
            state == spec_boss_state(self.savedata().speedrun_checkpoints, boss@),
    {
        let dead = match &self.savedata.speedrun_checkpoints {
            Some(entries) => find_checkpoint(entries, boss),
            None => false,
        };
        BossState::from(dead)
    }

    /// Counts the item records of one category, leaving out those that are
    /// excluded from counting.
    pub fn item_type_count(&self, type_: THItemType) -> (count: usize)
        ensures
            count == spec_item_type_count(self.savedata().items@, type_),
            self.savedata().items@.len() <= usize::MAX,
    {
        let items = &self.savedata.items;
        let ghost pred = counted_as(type_);
        let total: usize = items.len();
        let mut count: usize = 0;
        let mut i: usize = 0;
        proof {
            items@.take(0).lemma_filter_len(pred);
        }
        while i < total
            invariant
                total == items@.len(),
                i <= items@.len(),
                pred == counted_as(type_),
                count == items@.take(i as int).filter(pred).len(),
                count <= i,
            decreases items@.len() - i,
        {
            proof {
                items@.take(i as int).lemma_filter_len_push(pred, items@[i as int]);
                assert(items@.take(i + 1) =~= items@.take(i as int).push(items@[i as int]));
            }
            if items[i].type_ == type_ && !items[i].excluded_from_count {
                count += 1;
            }
            i += 1;
        }
        assert(items@.take(items@.len() as int) =~= items@);
        count
    }

    /// Item completion: everything collected that counts, against the 94
    /// there is.
    pub fn item_counts(&self) -> (progress: Progress)
        ensures
            progress.current == items_total(self.savedata().items@),
            progress.needed == ACHIEVEMENT_ALL_ITEMS,
    {
        let needed: u64 = ACHIEVEMENT_ALL_HEALTH + ACHIEVEMENT_ALL_NOTES + ACHIEVEMENT_ALL_POWER
            + ACHIEVEMENT_ALL_RANGE + ACHIEVEMENT_ALL_SIZE + ACHIEVEMENT_ALL_TOOLS
            + ACHIEVEMENT_ALL_WEAPONS;
        let health_nodes = self.item_type_count(THItemType::HealthNode);
        let health_frags = self.item_type_count(THItemType::HealthNodeFragment);
        let notes = self.item_type_count(THItemType::Lore);
        let power_nodes = self.item_type_count(THItemType::PowerNode);
        let power_frags = self.item_type_count(THItemType::PowerNodeFragment);
        let range_nodes = self.item_type_count(THItemType::RangeNode);
        let size_nodes = self.item_type_count(THItemType::SizeNode);
        let tools = self.item_type_count(THItemType::Tool);
        let upgrades = self.item_type_count(THItemType::PermanentUpgrade);
        let weapons = self.item_type_count(THItemType::Weapon);
        proof {
            lemma_counts_bounded(self.savedata().items@);
        }
        let current: usize = health_nodes + (health_frags / FRAGMENTS_PER_NODE) + notes
            + power_nodes + (power_frags / FRAGMENTS_PER_NODE) + range_nodes + size_nodes + tools
            + upgrades + weapons;
        Progress { current: current as u64, needed }
    }

    /// 100% Health: health nodes plus one for every five fragments, of 13.
    pub fn all_health(&self) -> (progress: Progress)
        ensures
            progress.current == health_total(self.savedata().items@),
            progress.needed == 13,
    {
        let nodes = self.item_type_count(THItemType::HealthNode);
        let frags = self.item_type_count(THItemType::HealthNodeFragment);
        let frags = frags / FRAGMENTS_PER_NODE;
        proof {
            lemma_counts_bounded(self.savedata().items@);
        }
        let current: usize = nodes + frags;
        Progress { current: current as u64, needed: ACHIEVEMENT_ALL_HEALTH }
    }

    /// 100% Items: item completion.
    pub fn all_items(&self) -> (progress: Progress)
        ensures
            progress.current == items_total(self.savedata().items@),
            progress.needed == ACHIEVEMENT_ALL_ITEMS,
    {
        self.item_counts()
    }

    /// 100% Map: screens visited, of the screens there are. Both counts are
    /// the document's own.
    pub fn all_map(&self) -> (progress: ScreenProgress)
        ensures
            progress.current == self.savedata().screen_count,
            progress.needed == self.savedata().total_screen_count,
    {
        ScreenProgress {
            current: self.savedata.screen_count,
            needed: self.savedata.total_screen_count,
        }
    }

    /// 100% Notes: lore notes, of 28.
    pub fn all_notes(&self) -> (progress: Progress)
        ensures
            progress.current == spec_item_type_count(self.savedata().items@, THItemType::Lore),
            progress.needed == 28,
    {
        let current = self.item_type_count(THItemType::Lore);
        Progress { current: current as u64, needed: ACHIEVEMENT_ALL_NOTES }
    }

    /// 100% Power: power nodes plus one for every five fragments, of 9.
    pub fn all_power(&self) -> (progress: Progress)
        ensures
            progress.current == power_total(self.savedata().items@),
            progress.needed == 9,
    {
        let nodes = self.item_type_count(THItemType::PowerNode);
        let frags = self.item_type_count(THItemType::PowerNodeFragment);
        let frags = frags / FRAGMENTS_PER_NODE;
        proof {
            lemma_counts_bounded(self.savedata().items@);
        }
        let current: usize = nodes + frags;
        Progress { current: current as u64, needed: ACHIEVEMENT_ALL_POWER }
    }

    /// 100% Tools: tools plus permanent upgrades, of 16.
    pub fn all_tools(&self) -> (progress: Progress)
        ensures
            progress.current == tools_total(self.savedata().items@),
            progress.needed == 16,
    {
        let tools = self.item_type_count(THItemType::Tool);
        let upgrades = self.item_type_count(THItemType::PermanentUpgrade);
        proof {
            lemma_counts_bounded(self.savedata().items@);
        }
        let current: usize = tools + upgrades;
        Progress { current: current as u64, needed: ACHIEVEMENT_ALL_TOOLS }
    }

    /// 100% Weapons: weapons, of 20.
    pub fn all_weapons(&self) -> (progress: Progress)
        ensures
            progress.current == spec_item_type_count(self.savedata().items@, THItemType::Weapon),
            progress.needed == 20,
    {
        let current = self.item_type_count(THItemType::Weapon);
        Progress { current: current as u64, needed: ACHIEVEMENT_ALL_WEAPONS }
    }

    /// The state of one boss, under the name a report shows for it.
    pub fn boss<'b>(&self, boss: &'b str) -> (line: (&'b str, BossState))
        ensures
            line.0@ == spec_boss_label(boss@),
            line.1 == spec_boss_state(self.savedata().speedrun_checkpoints, boss@),
    {
        let state = self.boss_state(boss);
        (boss_label(boss), state)
    }

    /// Brick Breaker: bricks destroyed, of 2000. The count never exceeds
    /// 2000, however many bricks the document records.
    pub fn brick_breaker(&self) -> (progress: Progress)
        ensures
            progress.current == clamp_counter(self.savedata().bricks_destroyed as int),
            progress.current <= 2000,
            progress.needed == 2000,
    {
        let counter = self.savedata.bricks_destroyed;
        let current: u64 = if counter < 0 {
            0
        } else if counter > 2000 {
            2000
        } else {
            counter as u64
        };
        Progress { current, needed: ACHIEVEMENT_BRICK_BREAKER }
    }

    /// Bubble Breaker: bubbles destroyed, of 2000. The count never exceeds
    /// 2000, however many bubbles the document records.
    pub fn bubble_breaker(&self) -> (progress: Progress)
        ensures
            progress.current == clamp_counter(self.savedata().red_goo_destroyed as int),
            progress.current <= 2000,
            progress.needed == 2000,
    {
        let counter = self.savedata.red_goo_destroyed;
        let current: u64 = if counter < 0 {
            0
        } else if counter > 2000 {
            2000
        } else {
            counter as u64
        };
        Progress { current, needed: ACHIEVEMENT_BUBBLE_BREAKER }
    }

    /// Hack: one glitched creature is enough.
    pub fn hack(&self) -> (progress: Progress)
        ensures
            progress.current == if glitched_len(self.savedata().creatures_glitched) >= 1 {
                1int
            } else {
                0int
            },
            progress.needed == 1,
    {
        let current: u64 = match &self.savedata.creatures_glitched {
            Some(glitched) => if glitched.len() >= 1 {
                1
            } else {
                0
            },
            None => 0,
        };
        Progress { current, needed: ACHIEVEMENT_HACK }
    }

    /// Hacker: entries of the glitch log, against the length of the Hacker
    /// list.
    pub fn hacker(&self) -> (progress: Progress)
        ensures
            progress.current == glitched_len(self.savedata().creatures_glitched),
            progress.needed == Creature::spec_achievement_list().len(),
            progress.needed == 59,
    {
        let needed = Creature::achievement_list().len();
        let current: usize = match &self.savedata.creatures_glitched {
            Some(glitched) => glitched.len(),
            None => 0,
        };
        Progress { current: current as u64, needed: needed as u64 }
    }

    /// Low %: item completion, failed once it has reached 40 percent.
    pub fn low_percent(&self) -> (low: LowPercent)
        ensures
            low.progress.current == items_total(self.savedata().items@),
            low.progress.needed == ACHIEVEMENT_ALL_ITEMS,
            low.status == if low_percent_failed(low.progress) {
                Status::Failed
            } else {
                Status::Intact
            },
    {
        let progress = self.item_counts();
        let status = if progress.current as u128 * 100 >= 40 * progress.needed as u128 {
            Status::Failed
        } else {
            Status::Intact
        };
        LowPercent { progress, status }
    }

    /// Mostly Invincible: failed with the second death.
    pub fn mostly_invincible(&self) -> (invincible: MostlyInvincible)
        ensures
            invincible.deaths == self.savedata().num_deaths,
            invincible.maximum == 1,
            invincible.status == if self.savedata().num_deaths > 1 {
                Status::Failed
            } else {
                Status::Intact
            },
    {
        let current = self.savedata.num_deaths;
        let status = if current > ACHIEVEMENT_MAX_DEATHS {
            Status::Failed
        } else {
            Status::Intact
        };
        MostlyInvincible { deaths: current, maximum: ACHIEVEMENT_MAX_DEATHS, status }
    }

    /// Pacifist: failed once the Clone is dead.
    pub fn pacifist(&self) -> (pacifist: Pacifist)
        ensures
            pacifist.state == spec_boss_state(self.savedata().speedrun_checkpoints, "Clone"@),
            pacifist.status == if pacifist.state == BossState::Dead {
                Status::Failed
            } else {
                Status::Intact
            },
    {
        let state = self.boss_state("Clone");
        let status = match state {
            BossState::Alive => Status::Intact,
            BossState::Dead => Status::Failed,
        };
        Pacifist { state, status }
    }

    /// The state of every boss of `boss_names`, in that order.
    pub fn boss_reports(&self) -> (reports: Vec<BossReport>)
        ensures
            reports@.len() == boss_names().len(),
            forall|i: int|
                0 <= i < reports@.len() ==> {
                    let report = #[trigger] reports@[i];
                    &&& report.name@ == boss_names()[i]
                    &&& report.label@ == spec_boss_label(boss_names()[i])
                    &&& report.state == spec_boss_state(
                        self.savedata().speedrun_checkpoints,
                        boss_names()[i],
                    )
                },
    {
        let names = bosses();
        let mut reports: Vec<BossReport> = Vec::new();
        let mut i: usize = 0;
        while i < names.len()
            invariant
                i <= names@.len(),
                names@.len() == boss_names().len(),
                forall|k: int| 0 <= k < names@.len() ==> (#[trigger] names@[k])@ == boss_names()[k],
                reports@.len() == i,
                forall|k: int|
                    0 <= k < i ==> {
                        let report = #[trigger] reports@[k];
                        &&& report.name@ == boss_names()[k]
                        &&& report.label@ == spec_boss_label(boss_names()[k])
                        &&& report.state == spec_boss_state(
                            self.savedata().speedrun_checkpoints,
                            boss_names()[k],
                        )
                    },
            decreases names@.len() - i,
        {
            let name: &'static str = names[i];
            let (label, state) = self.boss(name);
            reports.push(BossReport { name, label, state });
            i += 1;
        }
        reports
    }

    /// Evaluates every achievement, the Pacifist achievement included.
    pub fn progress(&self) -> (report: AchievementReport)
        ensures
            report_matches(report, self.savedata()),
            report.pacifist matches Some(pacifist) && pacifist.state == spec_boss_state(
                self.savedata().speedrun_checkpoints,
                "Clone"@,
            ) && pacifist.status == if pacifist.state == BossState::Dead {
                Status::Failed
            } else {
                Status::Intact
            },
    {
        AchievementReport {
            all_health: self.all_health(),
            all_items: self.all_items(),
            all_map: self.all_map(),
            all_notes: self.all_notes(),
            all_power: self.all_power(),
            all_tools: self.all_tools(),
            all_weapons: self.all_weapons(),
            brick_breaker: self.brick_breaker(),
            bubble_breaker: self.bubble_breaker(),
            hack: self.hack(),
            hacker: self.hacker(),
            low_percent: self.low_percent(),
            mostly_invincible: self.mostly_invincible(),
            pacifist: Some(self.pacifist()),
            bosses: self.boss_reports(),
        }
    }

    /// The creatures still to glitch for Hacker, in the order of the Hacker
    /// list; `None`, for "all of them", where the document has no glitch
    /// log.
    pub fn hacker_requires(&self) -> (required: Option<Vec<Creature>>)
        ensures
            match required {
                Some(list) => spec_hacker_requires(self.savedata().creatures_glitched) == Some(
                    list@,
                ),
                None => spec_hacker_requires(self.savedata().creatures_glitched).is_none(),
            },
    {
        match &self.savedata.creatures_glitched {
            Some(glitched) => {
                let needs = Creature::achievement_list();
                let ghost pred = not_glitched(glitched@);
                let mut required: Vec<Creature> = Vec::new();
                let mut i: usize = 0;
                proof {
                    needs@.take(0).lemma_filter_len(pred);
                }
                while i < needs.len()
                    invariant
                        i <= needs@.len(),
                        pred == not_glitched(glitched@),
                        required@ == needs@.take(i as int).filter(pred),
                    decreases needs@.len() - i,
                {
                    let creature = needs[i];
                    proof {
                        needs@.take(i as int).lemma_filter_push(creature, pred);
                        assert(needs@.take(i + 1) =~= needs@.take(i as int).push(creature));
                    }
                    if !contains_creature(glitched, creature) {
                        required.push(creature);
                    }
                    i += 1;
                }
                assert(needs@.take(needs@.len() as int) =~= needs@);
                Some(required)
            },
            None => None,
        }
    }
}

/// What every report says of the document it was made from, whether or
/// not it includes the Pacifist achievement.
pub open spec fn report_matches(report: AchievementReport, doc: THSaveData) -> bool {
    &&& report.all_health == (Progress { current: health_total(doc.items@) as u64, needed: 13 })
    &&& report.all_items == (Progress { current: items_total(doc.items@) as u64, needed: ACHIEVEMENT_ALL_ITEMS })
    &&& report.all_map == (ScreenProgress {
        current: doc.screen_count,
        needed: doc.total_screen_count,
    })
    &&& report.all_notes == (Progress {
        current: spec_item_type_count(doc.items@, THItemType::Lore) as u64,
        needed: 28,
    })
    &&& report.all_power == (Progress { current: power_total(doc.items@) as u64, needed: 9 })
    &&& report.all_tools == (Progress { current: tools_total(doc.items@) as u64, needed: 16 })
    &&& report.all_weapons == (Progress {
        current: spec_item_type_count(doc.items@, THItemType::Weapon) as u64,
        needed: 20,
    })
    &&& report.brick_breaker == (Progress {
        current: clamp_counter(doc.bricks_destroyed as int) as u64,
        needed: 2000,
    })
    &&& report.bubble_breaker == (Progress {
        current: clamp_counter(doc.red_goo_destroyed as int) as u64,
        needed: 2000,
    })
    &&& report.hack == (Progress {
        current: if glitched_len(doc.creatures_glitched) >= 1 {
            1u64
        } else {
            0u64
        },
        needed: 1,
    })
    &&& report.hacker == (Progress {
        current: glitched_len(doc.creatures_glitched) as u64,
        needed: 59,
    })
    &&& report.low_percent.progress == report.all_items
    &&& report.low_percent.status == if low_percent_failed(report.all_items) {
        Status::Failed
    } else {
        Status::Intact
    }
    &&& report.mostly_invincible == (MostlyInvincible {
        deaths: doc.num_deaths,
        maximum: 1,
        status: if doc.num_deaths > 1 {
            Status::Failed
        } else {
            Status::Intact
        },
    })
    &&& report.bosses@.len() == boss_names().len()
    &&& forall|i: int|
        0 <= i < report.bosses@.len() ==> {
            let boss = #[trigger] report.bosses@[i];
            &&& boss.name@ == boss_names()[i]
            &&& boss.label@ == spec_boss_label(boss_names()[i])
            &&& boss.state == spec_boss_state(doc.speedrun_checkpoints, boss_names()[i])
        }
}

/// Whether one of `entries` is named `name`.
pub fn find_checkpoint(entries: &Vec<THSpeedrunCheckpoint>, name: &str) -> (found: bool)
    ensures
        found == has_checkpoint(entries@, name@),
{
    let mut i: usize = 0;
    while i < entries.len()
        invariant
            i <= entries@.len(),
            forall|k: int| 0 <= k < i ==> (#[trigger] entries@[k]).name@ != name@,
        decreases entries@.len() - i,
    {
        if str_eq(entries[i].name.as_str(), name) {
            return true;
        }
        i += 1;
    }
    false
}

/// Whether `creature` occurs in `log`.
pub fn contains_creature(log: &Vec<Creature>, creature: Creature) -> (found: bool)
    ensures
        found == log@.contains(creature),
{
    let mut i: usize = 0;
    while i < log.len()
        invariant
            i <= log@.len(),
            forall|k: int| 0 <= k < i ==> log@[k] != creature,
        decreases log@.len() - i,
    {
        if log[i] == creature {
            return true;
        }
        i += 1;
    }
    false
}

/// Filtering keeps exactly the elements that satisfy the predicate.
proof fn lemma_filter_contains_iff<A>(s: Seq<A>, pred: spec_fn(A) -> bool, x: A)
    ensures
        s.filter(pred).contains(x) <==> s.contains(x) && pred(x),
{
    let kept = s.filter(pred);
    if kept.contains(x) {
        let i = choose|i: int| 0 <= i < kept.len() && kept[i] == x;
        s.lemma_filter_pred(pred, i);
        s.lemma_filter_contains_rev(pred, x);
    }
    if s.contains(x) && pred(x) {
        let j = choose|j: int| 0 <= j < s.len() && s[j] == x;
        s.lemma_filter_contains(pred, j);
    }
}

/// What is still to glitch is the Hacker list without the glitch log:
/// exactly the creatures that Hacker asks for and the log lacks.
pub proof fn lemma_hacker_requires_is_difference(glitched: Vec<Creature>, c: Creature)
    ensures
        spec_hacker_requires(Some(glitched)).unwrap().contains(c) <==> c.spec_hacker()
            && !glitched@.contains(c),
{
    crate::creature::lemma_achievement_list_exact(c);
    lemma_filter_contains_iff(Creature::spec_achievement_list(), not_glitched(glitched@), c);
}

} // verus!
