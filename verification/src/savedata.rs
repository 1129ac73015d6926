//! The typed model of a decoded save document.
//!
//! Field names are the semantic ones. Each enumeration carries the table
//! of tokens that a save document stores its values as.

use crate::achievements::{
    report_matches, spec_hacker_requires, AchievementReport, Achievements,
};
use crate::creature::Creature;
use crate::text::str_eq;
use std::collections::{HashMap, HashSet};
use vstd::prelude::*;

verus! {

/// Why a token of a save document could not be decoded.
#[derive(Clone, Copy, Debug, PartialEq, Eq, Structural)]
pub enum DecodeError {
    /// The token names no creature.
    UnknownCreature,
    /// The token names no item category.
    UnknownItemType,
    /// The token names no difficulty.
    UnknownDifficulty,
    /// The token names no randomizer difficulty.
    UnknownRandomizerDifficulty,
    /// The token names no wall.
    UnknownCollisionDirs,
    /// The token names no tab of the map screen.
    UnknownSubScreen,
}

/// A difficulty setting of the randomizer.
#[derive(Clone, Copy, Debug, PartialEq, Eq, Structural)]
pub enum RandomizerDifficultySetting {
    Default,
    Advanced,
    Masochist,
    Easy,
    Normal,
    Hard,
}

impl RandomizerDifficultySetting {
    /// The token a save document stores the value as.
    pub open spec fn spec_token(self) -> Seq<char> {
        match self {
            RandomizerDifficultySetting::Default => "DEFAULT"@,
            RandomizerDifficultySetting::Advanced => "ADVANCED"@,
            RandomizerDifficultySetting::Masochist => "MASOCHIST"@,
            RandomizerDifficultySetting::Easy => "EASY"@,
            RandomizerDifficultySetting::Normal => "NORMAL"@,
            RandomizerDifficultySetting::Hard => "HARD"@,
        }
    }

    /// The token a save document stores the value as.
    pub fn token(&self) -> (s: &'static str)
        ensures
            s@ == self.spec_token(),
    {
        match self {
            RandomizerDifficultySetting::Default => "DEFAULT",
            RandomizerDifficultySetting::Advanced => "ADVANCED",
            RandomizerDifficultySetting::Masochist => "MASOCHIST",
            RandomizerDifficultySetting::Easy => "EASY",
            RandomizerDifficultySetting::Normal => "NORMAL",
            RandomizerDifficultySetting::Hard => "HARD",
        }
    }

    /// The value that `token` stands for, or the error for a token that
    /// stands for none.
    pub open spec fn spec_from_token(token: Seq<char>) -> Result<RandomizerDifficultySetting, DecodeError> {
        if token == "DEFAULT"@ {
            Ok(RandomizerDifficultySetting::Default)
        } else if token == "ADVANCED"@ {
            Ok(RandomizerDifficultySetting::Advanced)
        } else if token == "MASOCHIST"@ {
            Ok(RandomizerDifficultySetting::Masochist)
        } else if token == "EASY"@ {
            Ok(RandomizerDifficultySetting::Easy)
        } else if token == "NORMAL"@ {
            Ok(RandomizerDifficultySetting::Normal)
        } else if token == "HARD"@ {
            Ok(RandomizerDifficultySetting::Hard)
        } else {
            Err(DecodeError::UnknownRandomizerDifficulty)
        }
    }

    /// Decodes the value from the token found in a save document.
    pub fn from_token(token: &str) -> (decoded: Result<RandomizerDifficultySetting, DecodeError>)
        ensures
            decoded == RandomizerDifficultySetting::spec_from_token(token@),
    {
        if str_eq(token, "DEFAULT") {
            Ok(RandomizerDifficultySetting::Default)
        } else if str_eq(token, "ADVANCED") {
            Ok(RandomizerDifficultySetting::Advanced)
        } else if str_eq(token, "MASOCHIST") {
            Ok(RandomizerDifficultySetting::Masochist)
        } else if str_eq(token, "EASY") {
            Ok(RandomizerDifficultySetting::Easy)
        } else if str_eq(token, "NORMAL") {
            Ok(RandomizerDifficultySetting::Normal)
        } else if str_eq(token, "HARD") {
            Ok(RandomizerDifficultySetting::Hard)
        } else {
            Err(DecodeError::UnknownRandomizerDifficulty)
        }
    }
}

/// Decoding the token of a value gives that value back.
pub proof fn lemma_randomizer_difficulty_token_decodes(value: RandomizerDifficultySetting)
    ensures
        RandomizerDifficultySetting::spec_from_token(value.spec_token()) == Ok::<RandomizerDifficultySetting, DecodeError>(value),
{
    reveal_strlit("DEFAULT");
    assert("DEFAULT"@.len() == 7 && "DEFAULT"@[0] == 'D');
    reveal_strlit("ADVANCED");
    assert("ADVANCED"@.len() == 8 && "ADVANCED"@[0] == 'A');
    reveal_strlit("MASOCHIST");
    assert("MASOCHIST"@.len() == 9 && "MASOCHIST"@[0] == 'M');
    reveal_strlit("EASY");
    assert("EASY"@.len() == 4 && "EASY"@[0] == 'E');
    reveal_strlit("NORMAL");
    assert("NORMAL"@.len() == 6 && "NORMAL"@[0] == 'N');
    reveal_strlit("HARD");
    assert("HARD"@.len() == 4 && "HARD"@[0] == 'H');
}

/// The wall of a screen that a door or entrance sits on.
#[derive(Clone, Copy, Debug, PartialEq, Eq, Structural)]
pub enum THCollisionDirs {
    NoDir,
    Bottom,
    Left,
    Top,
    Right,
}

impl THCollisionDirs {
    /// The token a save document stores the value as.
    pub open spec fn spec_token(self) -> Seq<char> {
        match self {
            THCollisionDirs::NoDir => "None"@,
            THCollisionDirs::Bottom => "Bottom"@,
            THCollisionDirs::Left => "Left"@,
            THCollisionDirs::Top => "Top"@,
            THCollisionDirs::Right => "Right"@,
        }
    }

    /// The token a save document stores the value as.
    pub fn token(&self) -> (s: &'static str)
        ensures
            s@ == self.spec_token(),
    {
        match self {
            THCollisionDirs::NoDir => "None",
            THCollisionDirs::Bottom => "Bottom",
            THCollisionDirs::Left => "Left",
            THCollisionDirs::Top => "Top",
            THCollisionDirs::Right => "Right",
        }
    }

    /// The value that `token` stands for, or the error for a token that
    /// stands for none.
    pub open spec fn spec_from_token(token: Seq<char>) -> Result<THCollisionDirs, DecodeError> {
        if token == "None"@ {
            Ok(THCollisionDirs::NoDir)
        } else if token == "Bottom"@ {
            Ok(THCollisionDirs::Bottom)
        } else if token == "Left"@ {
            Ok(THCollisionDirs::Left)
        } else if token == "Top"@ {
            Ok(THCollisionDirs::Top)
        } else if token == "Right"@ {
            Ok(THCollisionDirs::Right)
        } else {
            Err(DecodeError::UnknownCollisionDirs)
        }
    }

    /// Decodes the value from the token found in a save document.
    pub fn from_token(token: &str) -> (decoded: Result<THCollisionDirs, DecodeError>)
        ensures
            decoded == THCollisionDirs::spec_from_token(token@),
    {
        if str_eq(token, "None") {
            Ok(THCollisionDirs::NoDir)
        } else if str_eq(token, "Bottom") {
            Ok(THCollisionDirs::Bottom)
        } else if str_eq(token, "Left") {
            Ok(THCollisionDirs::Left)
        } else if str_eq(token, "Top") {
            Ok(THCollisionDirs::Top)
        } else if str_eq(token, "Right") {
            Ok(THCollisionDirs::Right)
        } else {
            Err(DecodeError::UnknownCollisionDirs)
        }
    }
}

/// Decoding the token of a value gives that value back.
pub proof fn lemma_collision_dirs_token_decodes(value: THCollisionDirs)
    ensures
        THCollisionDirs::spec_from_token(value.spec_token()) == Ok::<THCollisionDirs, DecodeError>(value),
{
    reveal_strlit("None");
    assert("None"@.len() == 4 && "None"@[0] == 'N');
    reveal_strlit("Bottom");
    assert("Bottom"@.len() == 6 && "Bottom"@[0] == 'B');
    reveal_strlit("Left");
    assert("Left"@.len() == 4 && "Left"@[0] == 'L');
    reveal_strlit("Top");
    assert("Top"@.len() == 3 && "Top"@[0] == 'T');
    reveal_strlit("Right");
    assert("Right"@.len() == 5 && "Right"@[0] == 'R');
}

/// The difficulty a game was started on.
#[derive(Clone, Copy, Debug, PartialEq, Eq, Structural)]
pub enum THDifficultySetting {
    Normal,
    Hard,
}

impl THDifficultySetting {
    /// The token a save document stores the value as.
    pub open spec fn spec_token(self) -> Seq<char> {
        match self {
            THDifficultySetting::Normal => "NORMAL"@,
            THDifficultySetting::Hard => "HARD"@,
        }
    }

    /// The token a save document stores the value as.
    pub fn token(&self) -> (s: &'static str)
        ensures
            s@ == self.spec_token(),
    {
        match self {
            THDifficultySetting::Normal => "NORMAL",
            THDifficultySetting::Hard => "HARD",
        }
    }

    /// The value that `token` stands for, or the error for a token that
    /// stands for none.
    pub open spec fn spec_from_token(token: Seq<char>) -> Result<THDifficultySetting, DecodeError> {
        if token == "NORMAL"@ {
            Ok(THDifficultySetting::Normal)
        } else if token == "HARD"@ {
            Ok(THDifficultySetting::Hard)
        } else {
            Err(DecodeError::UnknownDifficulty)
        }
    }

    /// Decodes the value from the token found in a save document.
    pub fn from_token(token: &str) -> (decoded: Result<THDifficultySetting, DecodeError>)
        ensures
            decoded == THDifficultySetting::spec_from_token(token@),
    {
        if str_eq(token, "NORMAL") {
            Ok(THDifficultySetting::Normal)
        } else if str_eq(token, "HARD") {
            Ok(THDifficultySetting::Hard)
        } else {
            Err(DecodeError::UnknownDifficulty)
        }
    }
}

/// Decoding the token of a value gives that value back.
pub proof fn lemma_difficulty_token_decodes(value: THDifficultySetting)
    ensures
        THDifficultySetting::spec_from_token(value.spec_token()) == Ok::<THDifficultySetting, DecodeError>(value),
{
    reveal_strlit("NORMAL");
    assert("NORMAL"@.len() == 6);
    reveal_strlit("HARD");
    assert("HARD"@.len() == 4);
}

/// The category of an item record, by which achievements count items.
#[derive(Clone, Copy, Debug, PartialEq, Eq, Structural)]
pub enum THItemType {
    GlitchBombDrop,
    HealthNode,
    HealthNodeFragment,
    HealthDrop,
    Lore,
    PermanentUpgrade,
    PowerNode,
    PowerNodeFragment,
    RangeNode,
    SizeNode,
    Tool,
    Weapon,
}

impl THItemType {
    /// The token a save document stores the value as.
    pub open spec fn spec_token(self) -> Seq<char> {
        match self {
            THItemType::GlitchBombDrop => "GLITCH_BOMB_DROP"@,
            THItemType::HealthNode => "HEALTH_NODE"@,
            THItemType::HealthNodeFragment => "HEALTH_NODE_FRAGMENT"@,
            THItemType::HealthDrop => "HEALTH_DROP"@,
            THItemType::Lore => "LORE"@,
            THItemType::PermanentUpgrade => "PERMANENT_UPGRADE"@,
            THItemType::PowerNode => "POWER_NODE"@,
            THItemType::PowerNodeFragment => "POWER_NODE_FRAGMENT"@,
            THItemType::RangeNode => "RANGE_NODE"@,
            THItemType::SizeNode => "SIZE_NODE"@,
            THItemType::Tool => "TOOL"@,
            THItemType::Weapon => "WEAPON"@,
        }
    }

    /// The token a save document stores the value as.
    pub fn token(&self) -> (s: &'static str)
        ensures
            s@ == self.spec_token(),
    {
        match self {
            THItemType::GlitchBombDrop => "GLITCH_BOMB_DROP",
            THItemType::HealthNode => "HEALTH_NODE",
            THItemType::HealthNodeFragment => "HEALTH_NODE_FRAGMENT",
            THItemType::HealthDrop => "HEALTH_DROP",
            THItemType::Lore => "LORE",
            THItemType::PermanentUpgrade => "PERMANENT_UPGRADE",
            THItemType::PowerNode => "POWER_NODE",
            THItemType::PowerNodeFragment => "POWER_NODE_FRAGMENT",
            THItemType::RangeNode => "RANGE_NODE",
            THItemType::SizeNode => "SIZE_NODE",
            THItemType::Tool => "TOOL",
            THItemType::Weapon => "WEAPON",
        }
    }

    /// The value that `token` stands for, or the error for a token that
    /// stands for none.
    pub open spec fn spec_from_token(token: Seq<char>) -> Result<THItemType, DecodeError> {
        if token == "GLITCH_BOMB_DROP"@ {
            Ok(THItemType::GlitchBombDrop)
        } else if token == "HEALTH_NODE"@ {
            Ok(THItemType::HealthNode)
        } else if token == "HEALTH_NODE_FRAGMENT"@ {
            Ok(THItemType::HealthNodeFragment)
        } else if token == "HEALTH_DROP"@ {
            Ok(THItemType::HealthDrop)
        } else if token == "LORE"@ {
            Ok(THItemType::Lore)
        } else if token == "PERMANENT_UPGRADE"@ {
            Ok(THItemType::PermanentUpgrade)
        } else if token == "POWER_NODE"@ {
            Ok(THItemType::PowerNode)
        } else if token == "POWER_NODE_FRAGMENT"@ {
            Ok(THItemType::PowerNodeFragment)
        } else if token == "RANGE_NODE"@ {
            Ok(THItemType::RangeNode)
        } else if token == "SIZE_NODE"@ {
            Ok(THItemType::SizeNode)
        } else if token == "TOOL"@ {
            Ok(THItemType::Tool)
        } else if token == "WEAPON"@ {
            Ok(THItemType::Weapon)
        } else {
            Err(DecodeError::UnknownItemType)
        }
    }

    /// Decodes the value from the token found in a save document.
    pub fn from_token(token: &str) -> (decoded: Result<THItemType, DecodeError>)
        ensures
            decoded == THItemType::spec_from_token(token@),
    {
        if str_eq(token, "GLITCH_BOMB_DROP") {
            Ok(THItemType::GlitchBombDrop)
        } else if str_eq(token, "HEALTH_NODE") {
            Ok(THItemType::HealthNode)
        } else if str_eq(token, "HEALTH_NODE_FRAGMENT") {
            Ok(THItemType::HealthNodeFragment)
        } else if str_eq(token, "HEALTH_DROP") {
            Ok(THItemType::HealthDrop)
        } else if str_eq(token, "LORE") {
            Ok(THItemType::Lore)
        } else if str_eq(token, "PERMANENT_UPGRADE") {
            Ok(THItemType::PermanentUpgrade)
        } else if str_eq(token, "POWER_NODE") {
            Ok(THItemType::PowerNode)
        } else if str_eq(token, "POWER_NODE_FRAGMENT") {
            Ok(THItemType::PowerNodeFragment)
        } else if str_eq(token, "RANGE_NODE") {
            Ok(THItemType::RangeNode)
        } else if str_eq(token, "SIZE_NODE") {
            Ok(THItemType::SizeNode)
        } else if str_eq(token, "TOOL") {
            Ok(THItemType::Tool)
        } else if str_eq(token, "WEAPON") {
            Ok(THItemType::Weapon)
        } else {
            Err(DecodeError::UnknownItemType)
        }
    }
}

/// Decoding the token of a value gives that value back.
pub proof fn lemma_item_type_token_decodes(value: THItemType)
    ensures
        THItemType::spec_from_token(value.spec_token()) == Ok::<THItemType, DecodeError>(value),
{
    reveal_strlit("GLITCH_BOMB_DROP");
    assert("GLITCH_BOMB_DROP"@.len() == 16 && "GLITCH_BOMB_DROP"@[0] == 'G' && "GLITCH_BOMB_DROP"@[7] == 'B');
    reveal_strlit("HEALTH_NODE");
    assert("HEALTH_NODE"@.len() == 11 && "HEALTH_NODE"@[0] == 'H' && "HEALTH_NODE"@[7] == 'N');
    reveal_strlit("HEALTH_NODE_FRAGMENT");
    assert("HEALTH_NODE_FRAGMENT"@.len() == 20 && "HEALTH_NODE_FRAGMENT"@[0] == 'H' && "HEALTH_NODE_FRAGMENT"@[7] == 'N');
    reveal_strlit("HEALTH_DROP");
    assert("HEALTH_DROP"@.len() == 11 && "HEALTH_DROP"@[0] == 'H' && "HEALTH_DROP"@[7] == 'D');
    reveal_strlit("LORE");
    assert("LORE"@.len() == 4 && "LORE"@[0] == 'L');
    reveal_strlit("PERMANENT_UPGRADE");
    assert("PERMANENT_UPGRADE"@.len() == 17 && "PERMANENT_UPGRADE"@[0] == 'P' && "PERMANENT_UPGRADE"@[7] == 'N');
    reveal_strlit("POWER_NODE");
    assert("POWER_NODE"@.len() == 10 && "POWER_NODE"@[0] == 'P' && "POWER_NODE"@[7] == 'O');
    reveal_strlit("POWER_NODE_FRAGMENT");
    assert("POWER_NODE_FRAGMENT"@.len() == 19 && "POWER_NODE_FRAGMENT"@[0] == 'P' && "POWER_NODE_FRAGMENT"@[7] == 'O');
    reveal_strlit("RANGE_NODE");
    assert("RANGE_NODE"@.len() == 10 && "RANGE_NODE"@[0] == 'R' && "RANGE_NODE"@[7] == 'O');
    reveal_strlit("SIZE_NODE");
    assert("SIZE_NODE"@.len() == 9 && "SIZE_NODE"@[0] == 'S' && "SIZE_NODE"@[7] == 'D');
    reveal_strlit("TOOL");
    assert("TOOL"@.len() == 4 && "TOOL"@[0] == 'T');
    reveal_strlit("WEAPON");
    assert("WEAPON"@.len() == 6 && "WEAPON"@[0] == 'W');
}

/// The tab of the map screen that was last open.
#[derive(Clone, Copy, Debug, PartialEq, Eq, Structural)]
pub enum THMapScreenSubScreen {
    MapScreen,
    Start,
    Inventory,
    Notes,
    Password,
    Console,
    Count,
}

impl THMapScreenSubScreen {
    /// The token a save document stores the value as.
    pub open spec fn spec_token(self) -> Seq<char> {
        match self {
            THMapScreenSubScreen::MapScreen => "MAP"@,
            THMapScreenSubScreen::Start => "START"@,
            THMapScreenSubScreen::Inventory => "INVENTORY"@,
            THMapScreenSubScreen::Notes => "NOTES"@,
            THMapScreenSubScreen::Password => "PASSWORD"@,
            THMapScreenSubScreen::Console => "CONSOLE"@,
            THMapScreenSubScreen::Count => "COUNT"@,
        }
    }

    /// The token a save document stores the value as.
    pub fn token(&self) -> (s: &'static str)
        ensures
            s@ == self.spec_token(),
    {
        match self {
            THMapScreenSubScreen::MapScreen => "MAP",
            THMapScreenSubScreen::Start => "START",
            THMapScreenSubScreen::Inventory => "INVENTORY",
            THMapScreenSubScreen::Notes => "NOTES",
            THMapScreenSubScreen::Password => "PASSWORD",
            THMapScreenSubScreen::Console => "CONSOLE",
            THMapScreenSubScreen::Count => "COUNT",
        }
    }

    /// The value that `token` stands for, or the error for a token that
    /// stands for none.
    pub open spec fn spec_from_token(token: Seq<char>) -> Result<THMapScreenSubScreen, DecodeError> {
        if token == "MAP"@ {
            Ok(THMapScreenSubScreen::MapScreen)
        } else if token == "START"@ {
            Ok(THMapScreenSubScreen::Start)
        } else if token == "INVENTORY"@ {
            Ok(THMapScreenSubScreen::Inventory)
        } else if token == "NOTES"@ {
            Ok(THMapScreenSubScreen::Notes)
        } else if token == "PASSWORD"@ {
            Ok(THMapScreenSubScreen::Password)
        } else if token == "CONSOLE"@ {
            Ok(THMapScreenSubScreen::Console)
        } else if token == "COUNT"@ {
            Ok(THMapScreenSubScreen::Count)
        } else {
            Err(DecodeError::UnknownSubScreen)
        }
    }

    /// Decodes the value from the token found in a save document.
    pub fn from_token(token: &str) -> (decoded: Result<THMapScreenSubScreen, DecodeError>)
        ensures
            decoded == THMapScreenSubScreen::spec_from_token(token@),
    {
        if str_eq(token, "MAP") {
            Ok(THMapScreenSubScreen::MapScreen)
        } else if str_eq(token, "START") {
            Ok(THMapScreenSubScreen::Start)
        } else if str_eq(token, "INVENTORY") {
            Ok(THMapScreenSubScreen::Inventory)
        } else if str_eq(token, "NOTES") {
            Ok(THMapScreenSubScreen::Notes)
        } else if str_eq(token, "PASSWORD") {
            Ok(THMapScreenSubScreen::Password)
        } else if str_eq(token, "CONSOLE") {
            Ok(THMapScreenSubScreen::Console)
        } else if str_eq(token, "COUNT") {
            Ok(THMapScreenSubScreen::Count)
        } else {
            Err(DecodeError::UnknownSubScreen)
        }
    }
}

/// Decoding the token of a value gives that value back.
pub proof fn lemma_sub_screen_token_decodes(value: THMapScreenSubScreen)
    ensures
        THMapScreenSubScreen::spec_from_token(value.spec_token()) == Ok::<THMapScreenSubScreen, DecodeError>(value),
{
    reveal_strlit("MAP");
    assert("MAP"@.len() == 3 && "MAP"@[0] == 'M');
    reveal_strlit("START");
    assert("START"@.len() == 5 && "START"@[0] == 'S');
    reveal_strlit("INVENTORY");
    assert("INVENTORY"@.len() == 9 && "INVENTORY"@[0] == 'I');
    reveal_strlit("NOTES");
    assert("NOTES"@.len() == 5 && "NOTES"@[0] == 'N');
    reveal_strlit("PASSWORD");
    assert("PASSWORD"@.len() == 8 && "PASSWORD"@[0] == 'P');
    reveal_strlit("CONSOLE");
    assert("CONSOLE"@.len() == 7 && "CONSOLE"@[0] == 'C');
    reveal_strlit("COUNT");
    assert("COUNT"@.len() == 5 && "COUNT"@[0] == 'C');
}

impl THItemType {
    /// The category an item record has when its document gives none.
    pub open spec fn spec_default() -> THItemType {
        THItemType::Weapon
    }

    /// The category for the token of an item record, or for its absence.
    pub open spec fn spec_from_optional_token(token: Option<Seq<char>>) -> Result<
        THItemType,
        DecodeError,
    > {
        match token {
            Some(t) => THItemType::spec_from_token(t),
            None => Ok(THItemType::spec_default()),
        }
    }

    /// Decodes the category of an item record. A record without a category
    /// token counts as a weapon; a token that names no category is an
    /// error.
    pub fn from_optional_token(token: Option<&str>) -> (decoded: Result<THItemType, DecodeError>)
        ensures
            decoded == THItemType::spec_from_optional_token(
                match token {
                    Some(t) => Some(t@),
                    None => None,
                },
            ),
    {
        match token {
            Some(t) => THItemType::from_token(t),
            None => Ok(THItemType::default()),
        }
    }
}

impl Default for THItemType {
    fn default() -> (category: THItemType)
        ensures
            category == THItemType::spec_default(),
    {
        THItemType::Weapon
    }
}

/// A position on a map, in screens.
#[derive(Debug)]
pub struct Point {
    pub x: i32,
    pub y: i32,
}

/// What a save document keeps of one area.
#[derive(Debug)]
pub struct THAreaSaveData {
    pub area_name: String,
    pub seed: i32,
    pub screen_count: i32,
    /// Horizontal position, as the bits of a 32-bit float.
    pub x_bits: u32,
    /// Vertical position, as the bits of a 32-bit float.
    pub y_bits: u32,
    /// Identifiers of the items collected in the area, where recorded.
    pub items: Option<HashSet<String>>,
}

/// A door or entrance drawn on the map of an area.
#[derive(Debug)]
pub struct THAutoMapDoor {
    pub x: i32,
    pub y: i32,
    pub wall: THCollisionDirs,
}

/// A room drawn on the map of an area.
#[derive(Debug)]
pub struct THAutoMapRoom {
    pub x: i32,
    pub y: i32,
    pub width: i32,
    pub height: i32,
}

/// The map of one area as far as it has been uncovered.
#[derive(Debug)]
pub struct THAutoMapData {
    pub area_name: String,
    pub width_screens: i32,
    pub height_screens: i32,
    pub screen_count: i32,
    /// The grid of the map, as comma-separated text.
    pub csv_data: String,
    /// The grid of the map as raw cells, where recorded.
    pub data: Option<Vec<u32>>,
    pub entrances: Option<Vec<THAutoMapDoor>>,
    pub doors: Option<Vec<THAutoMapDoor>>,
    pub rooms: Option<Vec<THAutoMapRoom>>,
    pub reminders: Vec<Point>,
}

/// One entry of the item list of a save document.
#[derive(Debug)]
pub struct THItemRecord {
    pub name: String,
    pub type_: THItemType,
    pub consumable: bool,
    /// Set on records that no completion tally may count.
    pub excluded_from_count: bool,
    pub required_item: Option<String>,
}

/// A password and whether it is switched on.
#[derive(Debug)]
pub struct THPasswordSaveEntry {
    pub password: String,
    pub enabled: bool,
}

/// What a save document keeps of one secret world.
#[derive(Debug)]
pub struct THSecretWorldSaveData {
    pub area_name: String,
    pub secret_world_name: String,
    pub primary_item: String,
    pub secondary_item: String,
}

/// A named marker of the checkpoint log, with the frame it was reached at.
/// The game writes one for each boss it sees defeated, speedrun or not.
#[derive(Debug)]
pub struct THSpeedrunCheckpoint {
    pub name: String,
    pub frames: i64,
}

/// A position inside a room.
#[derive(Debug)]
pub struct Vector2 {
    pub x: i32,
    pub y: i32,
}

/// A decoded save document.
///
/// Fields of type `Option` may be missing from a document altogether: the
/// feature they belong to was not used in that playthrough. A missing
/// collection (`None`) is distinct from an empty one.
#[derive(Debug)]
pub struct THSaveData {
    pub screen_size: i32,
    pub player_name: String,
    pub difficulty: THDifficultySetting,
    pub randomizer_difficulty: Option<RandomizerDifficultySetting>,
    pub current_weapon: String,
    pub previous_weapon: Option<String>,
    pub current_tool: Option<String>,
    pub save_area: String,
    pub save_room: String,
    pub save_room_pos: Vector2,
    pub total_frames: i64,
    /// Frames that count towards the timer, as the bits of a 64-bit float.
    pub effective_frames_bits: u64,
    pub screen_count: i32,
    pub total_screen_count: i32,
    pub num_deaths: i32,
    pub red_goo_destroyed: i32,
    pub bricks_destroyed: i32,
    pub is_speed_run: bool,
    pub is_randomizer: Option<bool>,
    pub random_item: Option<HashMap<String, String>>,
    pub use_real_timers: bool,
    pub last_map_sub_screen: THMapScreenSubScreen,
    pub base_seed: i32,
    pub randomizer_seed: Option<String>,
    pub bioflux_visions: bool,
    /// Strength of the hallucination effect, as the bits of a 32-bit float.
    pub hallucination_amount_bits: u32,
    pub translate_primordial: bool,
    pub translate_vykhya: bool,
    pub justin_bailey: bool,
    pub trace_blues: Option<bool>,
    pub trace_black: Option<bool>,
    pub trace_yellow: Option<bool>,
    pub secret_window: Option<bool>,
    pub has_drone: bool,
    pub cheats_used: bool,
    pub weapon_quick_select: Vec<String>,
    pub items: Vec<THItemRecord>,
    pub key_points_completed: Vec<String>,
    pub passwords: Vec<THPasswordSaveEntry>,
    pub area_save_data: Vec<THAreaSaveData>,
    pub secret_world_save_data: Option<Vec<THSecretWorldSaveData>>,
    pub auto_maps: Vec<THAutoMapData>,
    /// The checkpoint log, which doubles as the log of defeated bosses.
    pub speedrun_checkpoints: Option<Vec<THSpeedrunCheckpoint>>,
    /// The creatures that were glitched, in the order of the document.
    pub creatures_glitched: Option<Vec<Creature>>,
}

impl THSaveData {
    /// Evaluates the achievements of the short report: every achievement
    /// but Pacifist.
    pub fn achievement_progress(&self) -> (report: AchievementReport)
        ensures
            report_matches(report, *self),
            report.pacifist.is_none(),
    {
        let mut report = Achievements::new(self).progress();
        report.pacifist = None;
        report
    }

    /// The creatures still to glitch for Hacker, in the order of the Hacker
    /// list; `None`, for "all of them", where the document has no glitch
    /// log.
    pub fn hacker_requires(&self) -> (required: Option<Vec<Creature>>)
        ensures
            match required {
                Some(list) => spec_hacker_requires(self.creatures_glitched) == Some(list@),
                None => spec_hacker_requires(self.creatures_glitched).is_none(),
            },
    {
        Achievements::new(self).hacker_requires()
    }
}

} // verus!
