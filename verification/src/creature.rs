//! The creatures of the bestiary: their display names, the identifiers they
//! are stored under in a save document, and which of them the Hacker
//! achievement asks for.

use crate::savedata::DecodeError;
use crate::text::str_eq;
use vstd::prelude::*;

verus! {

/// One creature that the glitch log of a save document can record.
///
/// Equality is by variant. A creature's display name ([`Creature::name`])
/// is distinct from the identifier it is stored under
/// ([`Creature::identifier`]).
#[derive(Clone, Copy, Debug, PartialEq, Eq, Hash, Structural)]
pub enum Creature {
    // Fauna
    Arachnoptopus,
    Artichoker,
    Blite,
    Blurst,
    BlurstSpawn,
    Buoyg,
    Drometon,
    EyeCopter,
    FlynnStone,
    Fungine,
    Furglot,
    Gill,
    Glugg,
    Hookfish,
    Jorm,
    Jormite,
    LoopDiatom,
    Mogra,
    Mutant,
    Pliaa,
    Potato,
    Prongfish,
    Quadropus,
    Rugg,
    Scorpiant,
    Seamk,
    SmallMogra,
    Snailborg,
    SpaceBat,
    Spidler,
    Spiru,
    SpitBug,
    SpitBugBossSpawn,
    SwarmilyChild,
    SwarmilyParent,
    TrapClaw,
    TubeWorm,
    Volg,
    Yorchug,
    TubePuff,
    LoopDiatomViolet,
    MutantStrong,
    RuggMeta,
    SnailborgMeta,
    TrapClawGamma,
    TrapClawMeta,
    // Flora
    Goolumn,
    Hoverling,
    MushroomPoof,
    SpungusSpore,
    TentacleGrass,
    WillOWisp,
    // Mechanized
    Annihiwaiter,
    Diskko,
    Donaught,
    Hoverbug,
    RepairDrone,
    SentryBot,
    TieFlighter,
    SentryBotMeta,
    // Other
    Nrok,
    SpitbugNest,
}

impl Creature {
    /// The name the bestiary lists the creature under.
    pub open spec fn spec_name(self) -> Seq<char> {
        match self {
            Creature::Arachnoptopus => "Hopping Spider"@,
            Creature::Artichoker => "Hopping Shrubback"@,
            Creature::Blite => "Red Wasp"@,
            Creature::Blurst => "Slug"@,
            Creature::BlurstSpawn => "Slug Swarm"@,
            Creature::Buoyg => "Green Glider"@,
            Creature::Drometon => "Drometon"@,
            Creature::EyeCopter => "Firefly"@,
            Creature::FlynnStone => "Cyberdog"@,
            Creature::Fungine => "Jellyfish"@,
            Creature::Furglot => "Parasitic Shrub"@,
            Creature::Gill => "Laser Sea Urchin"@,
            Creature::Glugg => "Giant Boulderback"@,
            Creature::Hookfish => "Ancient Tunnel Hopper"@,
            Creature::Jorm => "Giant Greenworm"@,
            Creature::Jormite => "Baby Giant Greenworm"@,
            Creature::LoopDiatom => "Pink Giant Diatom"@,
            Creature::Mogra => "Mothmite"@,
            Creature::Mutant => "Brown Ghoul"@,
            Creature::Pliaa => "Red Flying Krill"@,
            Creature::Potato => "Pillbug"@,
            Creature::Prongfish => "Tunnel Hopper"@,
            Creature::Quadropus => "Sudran Squid"@,
            Creature::Rugg => "Green Roller"@,
            Creature::Scorpiant => "Scorpiant"@,
            Creature::Seamk => "Purple Flying Krill"@,
            Creature::SmallMogra => "Baby Mothmite"@,
            Creature::Snailborg => "Red Nautilus"@,
            Creature::SpaceBat => "Space Bat"@,
            Creature::Spidler => "Carnivorous Silk Bug"@,
            Creature::Spiru => "Spiru"@,
            Creature::SpitBug => "Purple Wasp"@,
            Creature::SpitBugBossSpawn => "Ukhu Spawn"@,
            Creature::SwarmilyChild => "Small Butterfly"@,
            Creature::SwarmilyParent => "Large Butterfly"@,
            Creature::TrapClaw => "Purple Scissorbeak"@,
            Creature::TubeWorm => "Yellow Sea Sponge"@,
            Creature::Volg => "Green Gilk Pupae"@,
            Creature::Yorchug => "Green Cephalopod"@,
            Creature::TubePuff => "Green Sea Sponge"@,
            Creature::LoopDiatomViolet => "Purple Giant Diatom"@,
            Creature::MutantStrong => "Gray Ghoul"@,
            Creature::RuggMeta => "Magenta Roller"@,
            Creature::SnailborgMeta => "Blue Nautilus"@,
            Creature::TrapClawGamma => "Cyan Scissorbeak"@,
            Creature::TrapClawMeta => "Red Scissorbeak"@,
            Creature::Goolumn => "Orb Wall"@,
            Creature::Hoverling => "Blade Vine"@,
            Creature::MushroomPoof => "Walking Shrub"@,
            Creature::SpungusSpore => "Mushroom Spores"@,
            Creature::TentacleGrass => "Poison Grate Plant"@,
            Creature::WillOWisp => "Will o Wisp"@,
            Creature::Annihiwaiter => "Annihiwaiter"@,
            Creature::Diskko => "Omni-Sentry"@,
            Creature::Donaught => "Beholder Sentry"@,
            Creature::Hoverbug => "Ancient Sentry"@,
            Creature::RepairDrone => "Repair Drone"@,
            Creature::SentryBot => "Silver Sentry"@,
            Creature::TieFlighter => "T-Type Sentry"@,
            Creature::SentryBotMeta => "Purple Sentry"@,
            Creature::Nrok => "Boulder"@,
            Creature::SpitbugNest => "Hive"@,
        }
    }

    /// The name the bestiary lists the creature under.
    pub fn name(&self) -> (s: &'static str)
        ensures
            s@ == self.spec_name(),
    {
        match self {
            Creature::Arachnoptopus => "Hopping Spider",
            Creature::Artichoker => "Hopping Shrubback",
            Creature::Blite => "Red Wasp",
            Creature::Blurst => "Slug",
            Creature::BlurstSpawn => "Slug Swarm",
            Creature::Buoyg => "Green Glider",
            Creature::Drometon => "Drometon",
            Creature::EyeCopter => "Firefly",
            Creature::FlynnStone => "Cyberdog",
            Creature::Fungine => "Jellyfish",
            Creature::Furglot => "Parasitic Shrub",
            Creature::Gill => "Laser Sea Urchin",
            Creature::Glugg => "Giant Boulderback",
            Creature::Hookfish => "Ancient Tunnel Hopper",
            Creature::Jorm => "Giant Greenworm",
            Creature::Jormite => "Baby Giant Greenworm",
            Creature::LoopDiatom => "Pink Giant Diatom",
            Creature::Mogra => "Mothmite",
            Creature::Mutant => "Brown Ghoul",
            Creature::Pliaa => "Red Flying Krill",
            Creature::Potato => "Pillbug",
            Creature::Prongfish => "Tunnel Hopper",
            Creature::Quadropus => "Sudran Squid",
            Creature::Rugg => "Green Roller",
            Creature::Scorpiant => "Scorpiant",
            Creature::Seamk => "Purple Flying Krill",
            Creature::SmallMogra => "Baby Mothmite",
            Creature::Snailborg => "Red Nautilus",
            Creature::SpaceBat => "Space Bat",
            Creature::Spidler => "Carnivorous Silk Bug",
            Creature::Spiru => "Spiru",
            Creature::SpitBug => "Purple Wasp",
            Creature::SpitBugBossSpawn => "Ukhu Spawn",
            Creature::SwarmilyChild => "Small Butterfly",
            Creature::SwarmilyParent => "Large Butterfly",
            Creature::TrapClaw => "Purple Scissorbeak",
            Creature::TubeWorm => "Yellow Sea Sponge",
            Creature::Volg => "Green Gilk Pupae",
            Creature::Yorchug => "Green Cephalopod",
            Creature::TubePuff => "Green Sea Sponge",
            Creature::LoopDiatomViolet => "Purple Giant Diatom",
            Creature::MutantStrong => "Gray Ghoul",
            Creature::RuggMeta => "Magenta Roller",
            Creature::SnailborgMeta => "Blue Nautilus",
            Creature::TrapClawGamma => "Cyan Scissorbeak",
            Creature::TrapClawMeta => "Red Scissorbeak",
            Creature::Goolumn => "Orb Wall",
            Creature::Hoverling => "Blade Vine",
            Creature::MushroomPoof => "Walking Shrub",
            Creature::SpungusSpore => "Mushroom Spores",
            Creature::TentacleGrass => "Poison Grate Plant",
            Creature::WillOWisp => "Will o Wisp",
            Creature::Annihiwaiter => "Annihiwaiter",
            Creature::Diskko => "Omni-Sentry",
            Creature::Donaught => "Beholder Sentry",
            Creature::Hoverbug => "Ancient Sentry",
            Creature::RepairDrone => "Repair Drone",
            Creature::SentryBot => "Silver Sentry",
            Creature::TieFlighter => "T-Type Sentry",
            Creature::SentryBotMeta => "Purple Sentry",
            Creature::Nrok => "Boulder",
            Creature::SpitbugNest => "Hive",
        }
    }

    /// The identifier a save document stores the creature under.
    pub open spec fn spec_identifier(self) -> Seq<char> {
        match self {
            Creature::Arachnoptopus => "Arachnoptopus"@,
            Creature::Artichoker => "Artichoker"@,
            Creature::Blite => "Blite"@,
            Creature::Blurst => "Blurst"@,
            Creature::BlurstSpawn => "BlurstSpawn"@,
            Creature::Buoyg => "Buoyg"@,
            Creature::Drometon => "Drometon"@,
            Creature::EyeCopter => "EyeCopter"@,
            Creature::FlynnStone => "FlynnStone"@,
            Creature::Fungine => "Fungine"@,
            Creature::Furglot => "Furglot"@,
            Creature::Gill => "Gill"@,
            Creature::Glugg => "Glugg"@,
            Creature::Hookfish => "Hookfish"@,
            Creature::Jorm => "Jorm"@,
            Creature::Jormite => "Jormite"@,
            Creature::LoopDiatom => "LoopDiatom"@,
            Creature::Mogra => "Mogra"@,
            Creature::Mutant => "Mutant"@,
            Creature::Pliaa => "Pliaa"@,
            Creature::Potato => "Potato"@,
            Creature::Prongfish => "Prongfish"@,
            Creature::Quadropus => "Quadropus"@,
            Creature::Rugg => "Rugg"@,
            Creature::Scorpiant => "Scorpiant"@,
            Creature::Seamk => "Seamk"@,
            Creature::SmallMogra => "SmallMogra"@,
            Creature::Snailborg => "Snailborg"@,
            Creature::SpaceBat => "SpaceBat"@,
            Creature::Spidler => "Spidler"@,
            Creature::Spiru => "Spiru"@,
            Creature::SpitBug => "SpitBug"@,
            Creature::SpitBugBossSpawn => "SpitBugBossSpawn"@,
            Creature::SwarmilyChild => "SwarmilyChild"@,
            Creature::SwarmilyParent => "SwarmilyParent"@,
            Creature::TrapClaw => "TrapClaw"@,
            Creature::TubeWorm => "TubeWorm"@,
            Creature::Volg => "Volg"@,
            Creature::Yorchug => "Yorchug"@,
            Creature::TubePuff => "TubePuff"@,
            Creature::LoopDiatomViolet => "LoopDiatom_Violet"@,
            Creature::MutantStrong => "Mutant_Strong"@,
            Creature::RuggMeta => "Rugg_Meta"@,
            Creature::SnailborgMeta => "Snailborg_Meta"@,
            Creature::TrapClawGamma => "TrapClaw_Gamma"@,
            Creature::TrapClawMeta => "TrapClaw_Meta"@,
            Creature::Goolumn => "Goolumn"@,
            Creature::Hoverling => "Hoverling"@,
            Creature::MushroomPoof => "MushroomPoof"@,
            Creature::SpungusSpore => "SpungusSpore"@,
            Creature::TentacleGrass => "TentacleGrass"@,
            Creature::WillOWisp => "WillOWisp"@,
            Creature::Annihiwaiter => "Annihiwaiter"@,
            Creature::Diskko => "Diskko"@,
            Creature::Donaught => "Donaught"@,
            Creature::Hoverbug => "Hoverbug"@,
            Creature::RepairDrone => "RepairDrone"@,
            Creature::SentryBot => "SentryBot"@,
            Creature::TieFlighter => "TieFlighter"@,
            Creature::SentryBotMeta => "SentryBot_Meta"@,
            Creature::Nrok => "Nrok"@,
            Creature::SpitbugNest => "SpitbugNest"@,
        }
    }

    /// The identifier a save document stores the creature under.
    pub fn identifier(&self) -> (s: &'static str)
        ensures
            s@ == self.spec_identifier(),
    {
        match self {
            Creature::Arachnoptopus => "Arachnoptopus",
            Creature::Artichoker => "Artichoker",
            Creature::Blite => "Blite",
            Creature::Blurst => "Blurst",
            Creature::BlurstSpawn => "BlurstSpawn",
            Creature::Buoyg => "Buoyg",
            Creature::Drometon => "Drometon",
            Creature::EyeCopter => "EyeCopter",
            Creature::FlynnStone => "FlynnStone",
            Creature::Fungine => "Fungine",
            Creature::Furglot => "Furglot",
            Creature::Gill => "Gill",
            Creature::Glugg => "Glugg",
            Creature::Hookfish => "Hookfish",
            Creature::Jorm => "Jorm",
            Creature::Jormite => "Jormite",
            Creature::LoopDiatom => "LoopDiatom",
            Creature::Mogra => "Mogra",
            Creature::Mutant => "Mutant",
            Creature::Pliaa => "Pliaa",
            Creature::Potato => "Potato",
            Creature::Prongfish => "Prongfish",
            Creature::Quadropus => "Quadropus",
            Creature::Rugg => "Rugg",
            Creature::Scorpiant => "Scorpiant",
            Creature::Seamk => "Seamk",
            Creature::SmallMogra => "SmallMogra",
            Creature::Snailborg => "Snailborg",
            Creature::SpaceBat => "SpaceBat",
            Creature::Spidler => "Spidler",
            Creature::Spiru => "Spiru",
            Creature::SpitBug => "SpitBug",
            Creature::SpitBugBossSpawn => "SpitBugBossSpawn",
            Creature::SwarmilyChild => "SwarmilyChild",
            Creature::SwarmilyParent => "SwarmilyParent",
            Creature::TrapClaw => "TrapClaw",
            Creature::TubeWorm => "TubeWorm",
            Creature::Volg => "Volg",
            Creature::Yorchug => "Yorchug",
            Creature::TubePuff => "TubePuff",
            Creature::LoopDiatomViolet => "LoopDiatom_Violet",
            Creature::MutantStrong => "Mutant_Strong",
            Creature::RuggMeta => "Rugg_Meta",
            Creature::SnailborgMeta => "Snailborg_Meta",
            Creature::TrapClawGamma => "TrapClaw_Gamma",
            Creature::TrapClawMeta => "TrapClaw_Meta",
            Creature::Goolumn => "Goolumn",
            Creature::Hoverling => "Hoverling",
            Creature::MushroomPoof => "MushroomPoof",
            Creature::SpungusSpore => "SpungusSpore",
            Creature::TentacleGrass => "TentacleGrass",
            Creature::WillOWisp => "WillOWisp",
            Creature::Annihiwaiter => "Annihiwaiter",
            Creature::Diskko => "Diskko",
            Creature::Donaught => "Donaught",
            Creature::Hoverbug => "Hoverbug",
            Creature::RepairDrone => "RepairDrone",
            Creature::SentryBot => "SentryBot",
            Creature::TieFlighter => "TieFlighter",
            Creature::SentryBotMeta => "SentryBot_Meta",
            Creature::Nrok => "Nrok",
            Creature::SpitbugNest => "SpitbugNest",
        }
    }

    /// A second identifier that save documents also use for the creature,
    /// where there is one.
    pub open spec fn spec_alias(self) -> Option<Seq<char>> {
        match self {
            Creature::TubePuff => Some("TubeWorm_Meta"@),
            _ => None,
        }
    }

    /// A second identifier that save documents also use for the creature,
    /// where there is one.
    pub fn alias(&self) -> (a: Option<&'static str>)
        ensures
            match a {
                Some(s) => self.spec_alias() == Some(s@),
                None => self.spec_alias().is_none(),
            },
    {
        match self {
            Creature::TubePuff => Some("TubeWorm_Meta"),
            _ => None,
        }
    }

    /// Whether `token` names this creature in a save document: it is the
    /// creature's identifier or its alias.
    pub open spec fn accepts(self, token: Seq<char>) -> bool {
        token == self.spec_identifier() || self.spec_alias() == Some(token)
    }

    /// Every creature, in declaration order.
    pub open spec fn spec_all() -> Seq<Creature> {
        seq![
            Creature::Arachnoptopus, Creature::Artichoker, Creature::Blite,
            Creature::Blurst, Creature::BlurstSpawn, Creature::Buoyg,
            Creature::Drometon, Creature::EyeCopter, Creature::FlynnStone,
            Creature::Fungine, Creature::Furglot, Creature::Gill,
            Creature::Glugg, Creature::Hookfish, Creature::Jorm,
            Creature::Jormite, Creature::LoopDiatom, Creature::Mogra,
            Creature::Mutant, Creature::Pliaa, Creature::Potato,
            Creature::Prongfish, Creature::Quadropus, Creature::Rugg,
            Creature::Scorpiant, Creature::Seamk, Creature::SmallMogra,
            Creature::Snailborg, Creature::SpaceBat, Creature::Spidler,
            Creature::Spiru, Creature::SpitBug, Creature::SpitBugBossSpawn,
            Creature::SwarmilyChild, Creature::SwarmilyParent, Creature::TrapClaw,
            Creature::TubeWorm, Creature::Volg, Creature::Yorchug,
            Creature::TubePuff, Creature::LoopDiatomViolet, Creature::MutantStrong,
            Creature::RuggMeta, Creature::SnailborgMeta, Creature::TrapClawGamma,
            Creature::TrapClawMeta, Creature::Goolumn, Creature::Hoverling,
            Creature::MushroomPoof, Creature::SpungusSpore, Creature::TentacleGrass,
            Creature::WillOWisp, Creature::Annihiwaiter, Creature::Diskko,
            Creature::Donaught, Creature::Hoverbug, Creature::RepairDrone,
            Creature::SentryBot, Creature::TieFlighter, Creature::SentryBotMeta,
            Creature::Nrok, Creature::SpitbugNest,
        ]
    }

    /// Every creature, in declaration order.
    pub fn all() -> (list: Vec<Creature>)
        ensures
            list@ == Creature::spec_all(),
    {
        let list = vec![
            Creature::Arachnoptopus, Creature::Artichoker, Creature::Blite,
            Creature::Blurst, Creature::BlurstSpawn, Creature::Buoyg,
            Creature::Drometon, Creature::EyeCopter, Creature::FlynnStone,
            Creature::Fungine, Creature::Furglot, Creature::Gill,
            Creature::Glugg, Creature::Hookfish, Creature::Jorm,
            Creature::Jormite, Creature::LoopDiatom, Creature::Mogra,
            Creature::Mutant, Creature::Pliaa, Creature::Potato,
            Creature::Prongfish, Creature::Quadropus, Creature::Rugg,
            Creature::Scorpiant, Creature::Seamk, Creature::SmallMogra,
            Creature::Snailborg, Creature::SpaceBat, Creature::Spidler,
            Creature::Spiru, Creature::SpitBug, Creature::SpitBugBossSpawn,
            Creature::SwarmilyChild, Creature::SwarmilyParent, Creature::TrapClaw,
            Creature::TubeWorm, Creature::Volg, Creature::Yorchug,
            Creature::TubePuff, Creature::LoopDiatomViolet, Creature::MutantStrong,
            Creature::RuggMeta, Creature::SnailborgMeta, Creature::TrapClawGamma,
            Creature::TrapClawMeta, Creature::Goolumn, Creature::Hoverling,
            Creature::MushroomPoof, Creature::SpungusSpore, Creature::TentacleGrass,
            Creature::WillOWisp, Creature::Annihiwaiter, Creature::Diskko,
            Creature::Donaught, Creature::Hoverbug, Creature::RepairDrone,
            Creature::SentryBot, Creature::TieFlighter, Creature::SentryBotMeta,
            Creature::Nrok, Creature::SpitbugNest,
        ];
        assert(list@ =~= Creature::spec_all());
        list
    }

    /// Whether the Hacker achievement asks for this creature.
    pub open spec fn spec_hacker(self) -> bool {
        !(self == Creature::Jormite || self == Creature::TentacleGrass || self
            == Creature::RepairDrone)
    }

    /// Whether the Hacker achievement asks for this creature. All but three
    /// are asked for.
    pub fn hacker(&self) -> (required: bool)
        ensures
            required == self.spec_hacker(),
    {
        !matches!(self, Creature::Jormite | Creature::TentacleGrass | Creature::RepairDrone)
    }

    /// The creatures the Hacker achievement asks for, in the order in which
    /// they are reported.
    pub open spec fn spec_achievement_list() -> Seq<Creature> {
        seq![
            Creature::Arachnoptopus, Creature::Artichoker, Creature::Blite,
            Creature::Blurst, Creature::BlurstSpawn, Creature::Buoyg,
            Creature::Drometon, Creature::EyeCopter, Creature::FlynnStone,
            Creature::Fungine, Creature::Furglot, Creature::Gill,
            Creature::Glugg, Creature::Hookfish, Creature::Jorm,
            Creature::LoopDiatom, Creature::LoopDiatomViolet, Creature::Mogra,
            Creature::Mutant, Creature::MutantStrong, Creature::Pliaa,
            Creature::Potato, Creature::Prongfish, Creature::Quadropus,
            Creature::Rugg, Creature::RuggMeta, Creature::Scorpiant,
            Creature::Seamk, Creature::SmallMogra, Creature::Snailborg,
            Creature::SnailborgMeta, Creature::SpaceBat, Creature::Spidler,
            Creature::Spiru, Creature::SpitBug, Creature::SpitBugBossSpawn,
            Creature::SwarmilyChild, Creature::SwarmilyParent, Creature::TrapClaw,
            Creature::TrapClawGamma, Creature::TrapClawMeta, Creature::TubePuff,
            Creature::TubeWorm, Creature::Volg, Creature::Yorchug,
            Creature::Goolumn, Creature::Hoverling, Creature::MushroomPoof,
            Creature::SpungusSpore, Creature::WillOWisp, Creature::Annihiwaiter,
            Creature::Diskko, Creature::Donaught, Creature::Hoverbug,
            Creature::SentryBot, Creature::SentryBotMeta, Creature::TieFlighter,
            Creature::Nrok, Creature::SpitbugNest,
        ]
    }

    /// The creatures the Hacker achievement asks for, in the order in which
    /// they are reported.
    pub fn achievement_list() -> (list: Vec<Creature>)
        ensures
            list@ == Creature::spec_achievement_list(),
            list@.len() == 59,
    {
        let list = vec![
            Creature::Arachnoptopus, Creature::Artichoker, Creature::Blite,
            Creature::Blurst, Creature::BlurstSpawn, Creature::Buoyg,
            Creature::Drometon, Creature::EyeCopter, Creature::FlynnStone,
            Creature::Fungine, Creature::Furglot, Creature::Gill,
            Creature::Glugg, Creature::Hookfish, Creature::Jorm,
            Creature::LoopDiatom, Creature::LoopDiatomViolet, Creature::Mogra,
            Creature::Mutant, Creature::MutantStrong, Creature::Pliaa,
            Creature::Potato, Creature::Prongfish, Creature::Quadropus,
            Creature::Rugg, Creature::RuggMeta, Creature::Scorpiant,
            Creature::Seamk, Creature::SmallMogra, Creature::Snailborg,
            Creature::SnailborgMeta, Creature::SpaceBat, Creature::Spidler,
            Creature::Spiru, Creature::SpitBug, Creature::SpitBugBossSpawn,
            Creature::SwarmilyChild, Creature::SwarmilyParent, Creature::TrapClaw,
            Creature::TrapClawGamma, Creature::TrapClawMeta, Creature::TubePuff,
            Creature::TubeWorm, Creature::Volg, Creature::Yorchug,
            Creature::Goolumn, Creature::Hoverling, Creature::MushroomPoof,
            Creature::SpungusSpore, Creature::WillOWisp, Creature::Annihiwaiter,
            Creature::Diskko, Creature::Donaught, Creature::Hoverbug,
            Creature::SentryBot, Creature::SentryBotMeta, Creature::TieFlighter,
            Creature::Nrok, Creature::SpitbugNest,
        ];
        assert(list@ =~= Creature::spec_achievement_list());
        list
    }

    /// The creature that `token` names, or the error for a token that
    /// names none.
    pub open spec fn spec_from_identifier(token: Seq<char>) -> Result<Creature, DecodeError> {
        if exists|c: Creature| c.accepts(token) {
            Ok(choose|c: Creature| c.accepts(token))
        } else {
            Err(DecodeError::UnknownCreature)
        }
    }

    /// Decodes a creature from the identifier found in a save document.
    ///
    /// An identifier and an alias of the same creature decode to the same
    /// value. A token that is neither is an error: the set of creatures is
    /// closed.
    pub fn from_identifier(token: &str) -> (found: Result<Creature, DecodeError>)
        ensures
            found == Creature::spec_from_identifier(token@),
            match found {
                Ok(c) => c.accepts(token@),
                Err(e) => e == DecodeError::UnknownCreature && forall|c: Creature|
                    !c.accepts(token@),
            },
    {
        let all = Creature::all();
        let mut i: usize = 0;
        while i < all.len()
            invariant
                i <= all@.len(),
                all@ == Creature::spec_all(),
                forall|k: int| 0 <= k < i ==> !(#[trigger] all@[k]).accepts(token@),
            decreases all@.len() - i,
        {
            let c = all[i];
            let by_alias = match c.alias() {
                Some(a) => str_eq(token, a),
                None => false,
            };
            if by_alias || str_eq(token, c.identifier()) {
                proof {
                    assert(c.accepts(token@));
                    let chosen = choose|d: Creature| d.accepts(token@);
                    lemma_token_unambiguous(c, chosen, token@);
                }
                return Ok(c);
            }
            i += 1;
        }
        proof {
            assert forall|c: Creature| !c.accepts(token@) by {
                lemma_all_complete(c);
            }
        }
        Err(DecodeError::UnknownCreature)
    }
}

/// Decodes a glitch log from the identifiers found in a save document, in
/// their order.
///
/// All or nothing: the log has one creature for each identifier, and a
/// single identifier that names no creature fails the whole log. Nothing
/// is dropped.
pub fn decode_glitch_log(tokens: &Vec<String>) -> (log: Result<Vec<Creature>, DecodeError>)
    ensures
        match log {
            Ok(list) => list@.len() == tokens@.len() && forall|i: int|
                0 <= i < tokens@.len() ==> Creature::spec_from_identifier(
                    (#[trigger] tokens@[i])@,
                ) == Ok::<Creature, DecodeError>(list@[i]),
            Err(e) => e == DecodeError::UnknownCreature && exists|i: int|
                0 <= i < tokens@.len() && Creature::spec_from_identifier(
                    (#[trigger] tokens@[i])@,
                ) is Err,
        },
{
    let mut list: Vec<Creature> = Vec::new();
    let mut i: usize = 0;
    while i < tokens.len()
        invariant
            i <= tokens@.len(),
            list@.len() == i,
            forall|k: int|
                0 <= k < i ==> Creature::spec_from_identifier((#[trigger] tokens@[k])@) == Ok::<
                    Creature,
                    DecodeError,
                >(list@[k]),
        decreases tokens@.len() - i,
    {
        match Creature::from_identifier(tokens[i].as_str()) {
            Ok(creature) => list.push(creature),
            Err(e) => {
                assert(Creature::spec_from_identifier(tokens@[i as int]@) is Err);
                return Err(e);
            },
        }
        i += 1;
    }
    Ok(list)
}

/// Every creature occurs in the list of all creatures.
pub proof fn lemma_all_complete(c: Creature)
    ensures
        Creature::spec_all().contains(c),
{
    let all = Creature::spec_all();
    match c {
        Creature::Arachnoptopus => assert(all[0] == c),
        Creature::Artichoker => assert(all[1] == c),
        Creature::Blite => assert(all[2] == c),
        Creature::Blurst => assert(all[3] == c),
        Creature::BlurstSpawn => assert(all[4] == c),
        Creature::Buoyg => assert(all[5] == c),
        Creature::Drometon => assert(all[6] == c),
        Creature::EyeCopter => assert(all[7] == c),
        Creature::FlynnStone => assert(all[8] == c),
        Creature::Fungine => assert(all[9] == c),
        Creature::Furglot => assert(all[10] == c),
        Creature::Gill => assert(all[11] == c),
        Creature::Glugg => assert(all[12] == c),
        Creature::Hookfish => assert(all[13] == c),
        Creature::Jorm => assert(all[14] == c),
        Creature::Jormite => assert(all[15] == c),
        Creature::LoopDiatom => assert(all[16] == c),
        Creature::Mogra => assert(all[17] == c),
        Creature::Mutant => assert(all[18] == c),
        Creature::Pliaa => assert(all[19] == c),
        Creature::Potato => assert(all[20] == c),
        Creature::Prongfish => assert(all[21] == c),
        Creature::Quadropus => assert(all[22] == c),
        Creature::Rugg => assert(all[23] == c),
        Creature::Scorpiant => assert(all[24] == c),
        Creature::Seamk => assert(all[25] == c),
        Creature::SmallMogra => assert(all[26] == c),
        Creature::Snailborg => assert(all[27] == c),
        Creature::SpaceBat => assert(all[28] == c),
        Creature::Spidler => assert(all[29] == c),
        Creature::Spiru => assert(all[30] == c),
        Creature::SpitBug => assert(all[31] == c),
        Creature::SpitBugBossSpawn => assert(all[32] == c),
        Creature::SwarmilyChild => assert(all[33] == c),
        Creature::SwarmilyParent => assert(all[34] == c),
        Creature::TrapClaw => assert(all[35] == c),
        Creature::TubeWorm => assert(all[36] == c),
        Creature::Volg => assert(all[37] == c),
        Creature::Yorchug => assert(all[38] == c),
        Creature::TubePuff => assert(all[39] == c),
        Creature::LoopDiatomViolet => assert(all[40] == c),
        Creature::MutantStrong => assert(all[41] == c),
        Creature::RuggMeta => assert(all[42] == c),
        Creature::SnailborgMeta => assert(all[43] == c),
        Creature::TrapClawGamma => assert(all[44] == c),
        Creature::TrapClawMeta => assert(all[45] == c),
        Creature::Goolumn => assert(all[46] == c),
        Creature::Hoverling => assert(all[47] == c),
        Creature::MushroomPoof => assert(all[48] == c),
        Creature::SpungusSpore => assert(all[49] == c),
        Creature::TentacleGrass => assert(all[50] == c),
        Creature::WillOWisp => assert(all[51] == c),
        Creature::Annihiwaiter => assert(all[52] == c),
        Creature::Diskko => assert(all[53] == c),
        Creature::Donaught => assert(all[54] == c),
        Creature::Hoverbug => assert(all[55] == c),
        Creature::RepairDrone => assert(all[56] == c),
        Creature::SentryBot => assert(all[57] == c),
        Creature::TieFlighter => assert(all[58] == c),
        Creature::SentryBotMeta => assert(all[59] == c),
        Creature::Nrok => assert(all[60] == c),
        Creature::SpitbugNest => assert(all[61] == c),
    }
}

/// What tells one token from another: its length and two of its characters.
spec fn signature(token: Seq<char>) -> (nat, char, char) {
    (
        token.len(),
        if token.len() > 0 {
            token[0]
        } else {
            ' '
        },
        if token.len() > 4 {
            token[4]
        } else {
            ' '
        },
    )
}

/// The signature of each creature's identifier.
spec fn identifier_signature(c: Creature) -> (nat, char, char) {
    match c {
        Creature::Arachnoptopus => (13nat, 'A', 'h'),
        Creature::Artichoker => (10nat, 'A', 'c'),
        Creature::Blite => (5nat, 'B', 'e'),
        Creature::Blurst => (6nat, 'B', 's'),
        Creature::BlurstSpawn => (11nat, 'B', 's'),
        Creature::Buoyg => (5nat, 'B', 'g'),
        Creature::Drometon => (8nat, 'D', 'e'),
        Creature::EyeCopter => (9nat, 'E', 'o'),
        Creature::FlynnStone => (10nat, 'F', 'n'),
        Creature::Fungine => (7nat, 'F', 'i'),
        Creature::Furglot => (7nat, 'F', 'l'),
        Creature::Gill => (4nat, 'G', ' '),
        Creature::Glugg => (5nat, 'G', 'g'),
        Creature::Hookfish => (8nat, 'H', 'f'),
        Creature::Jorm => (4nat, 'J', ' '),
        Creature::Jormite => (7nat, 'J', 'i'),
        Creature::LoopDiatom => (10nat, 'L', 'D'),
        Creature::Mogra => (5nat, 'M', 'a'),
        Creature::Mutant => (6nat, 'M', 'n'),
        Creature::Pliaa => (5nat, 'P', 'a'),
        Creature::Potato => (6nat, 'P', 't'),
        Creature::Prongfish => (9nat, 'P', 'g'),
        Creature::Quadropus => (9nat, 'Q', 'r'),
        Creature::Rugg => (4nat, 'R', ' '),
        Creature::Scorpiant => (9nat, 'S', 'p'),
        Creature::Seamk => (5nat, 'S', 'k'),
        Creature::SmallMogra => (10nat, 'S', 'l'),
        Creature::Snailborg => (9nat, 'S', 'l'),
        Creature::SpaceBat => (8nat, 'S', 'e'),
        Creature::Spidler => (7nat, 'S', 'l'),
        Creature::Spiru => (5nat, 'S', 'u'),
        Creature::SpitBug => (7nat, 'S', 'B'),
        Creature::SpitBugBossSpawn => (16nat, 'S', 'B'),
        Creature::SwarmilyChild => (13nat, 'S', 'm'),
        Creature::SwarmilyParent => (14nat, 'S', 'm'),
        Creature::TrapClaw => (8nat, 'T', 'C'),
        Creature::TubeWorm => (8nat, 'T', 'W'),
        Creature::Volg => (4nat, 'V', ' '),
        Creature::Yorchug => (7nat, 'Y', 'h'),
        Creature::TubePuff => (8nat, 'T', 'P'),
        Creature::LoopDiatomViolet => (17nat, 'L', 'D'),
        Creature::MutantStrong => (13nat, 'M', 'n'),
        Creature::RuggMeta => (9nat, 'R', '_'),
        Creature::SnailborgMeta => (14nat, 'S', 'l'),
        Creature::TrapClawGamma => (14nat, 'T', 'C'),
        Creature::TrapClawMeta => (13nat, 'T', 'C'),
        Creature::Goolumn => (7nat, 'G', 'u'),
        Creature::Hoverling => (9nat, 'H', 'r'),
        Creature::MushroomPoof => (12nat, 'M', 'r'),
        Creature::SpungusSpore => (12nat, 'S', 'g'),
        Creature::TentacleGrass => (13nat, 'T', 'a'),
        Creature::WillOWisp => (9nat, 'W', 'O'),
        Creature::Annihiwaiter => (12nat, 'A', 'h'),
        Creature::Diskko => (6nat, 'D', 'k'),
        Creature::Donaught => (8nat, 'D', 'u'),
        Creature::Hoverbug => (8nat, 'H', 'r'),
        Creature::RepairDrone => (11nat, 'R', 'i'),
        Creature::SentryBot => (9nat, 'S', 'r'),
        Creature::TieFlighter => (11nat, 'T', 'l'),
        Creature::SentryBotMeta => (14nat, 'S', 'r'),
        Creature::Nrok => (4nat, 'N', ' '),
        Creature::SpitbugNest => (11nat, 'S', 'b'),
    }
}

proof fn lemma_identifier_signature(c: Creature)
    ensures
        signature(c.spec_identifier()) == identifier_signature(c),
{
    match c {
        Creature::Arachnoptopus => {
            reveal_strlit("Arachnoptopus");
            assert(signature("Arachnoptopus"@) == (13nat, 'A', 'h'));
        },
        Creature::Artichoker => {
            reveal_strlit("Artichoker");
            assert(signature("Artichoker"@) == (10nat, 'A', 'c'));
        },
        Creature::Blite => {
            reveal_strlit("Blite");
            assert(signature("Blite"@) == (5nat, 'B', 'e'));
        },
        Creature::Blurst => {
            reveal_strlit("Blurst");
            assert(signature("Blurst"@) == (6nat, 'B', 's'));
        },
        Creature::BlurstSpawn => {
            reveal_strlit("BlurstSpawn");
            assert(signature("BlurstSpawn"@) == (11nat, 'B', 's'));
        },
        Creature::Buoyg => {
            reveal_strlit("Buoyg");
            assert(signature("Buoyg"@) == (5nat, 'B', 'g'));
        },
        Creature::Drometon => {
            reveal_strlit("Drometon");
            assert(signature("Drometon"@) == (8nat, 'D', 'e'));
        },
        Creature::EyeCopter => {
            reveal_strlit("EyeCopter");
            assert(signature("EyeCopter"@) == (9nat, 'E', 'o'));
        },
        Creature::FlynnStone => {
            reveal_strlit("FlynnStone");
            assert(signature("FlynnStone"@) == (10nat, 'F', 'n'));
        },
        Creature::Fungine => {
            reveal_strlit("Fungine");
            assert(signature("Fungine"@) == (7nat, 'F', 'i'));
        },
        Creature::Furglot => {
            reveal_strlit("Furglot");
            assert(signature("Furglot"@) == (7nat, 'F', 'l'));
        },
        Creature::Gill => {
            reveal_strlit("Gill");
            assert(signature("Gill"@) == (4nat, 'G', ' '));
        },
        Creature::Glugg => {
            reveal_strlit("Glugg");
            assert(signature("Glugg"@) == (5nat, 'G', 'g'));
        },
        Creature::Hookfish => {
            reveal_strlit("Hookfish");
            assert(signature("Hookfish"@) == (8nat, 'H', 'f'));
        },
        Creature::Jorm => {
            reveal_strlit("Jorm");
            assert(signature("Jorm"@) == (4nat, 'J', ' '));
        },
        Creature::Jormite => {
            reveal_strlit("Jormite");
            assert(signature("Jormite"@) == (7nat, 'J', 'i'));
        },
        Creature::LoopDiatom => {
            reveal_strlit("LoopDiatom");
            assert(signature("LoopDiatom"@) == (10nat, 'L', 'D'));
        },
        Creature::Mogra => {
            reveal_strlit("Mogra");
            assert(signature("Mogra"@) == (5nat, 'M', 'a'));
        },
        Creature::Mutant => {
            reveal_strlit("Mutant");
            assert(signature("Mutant"@) == (6nat, 'M', 'n'));
        },
        Creature::Pliaa => {
            reveal_strlit("Pliaa");
            assert(signature("Pliaa"@) == (5nat, 'P', 'a'));
        },
        Creature::Potato => {
            reveal_strlit("Potato");
            assert(signature("Potato"@) == (6nat, 'P', 't'));
        },
        Creature::Prongfish => {
            reveal_strlit("Prongfish");
            assert(signature("Prongfish"@) == (9nat, 'P', 'g'));
        },
        Creature::Quadropus => {
            reveal_strlit("Quadropus");
            assert(signature("Quadropus"@) == (9nat, 'Q', 'r'));
        },
        Creature::Rugg => {
            reveal_strlit("Rugg");
            assert(signature("Rugg"@) == (4nat, 'R', ' '));
        },
        Creature::Scorpiant => {
            reveal_strlit("Scorpiant");
            assert(signature("Scorpiant"@) == (9nat, 'S', 'p'));
        },
        Creature::Seamk => {
            reveal_strlit("Seamk");
            assert(signature("Seamk"@) == (5nat, 'S', 'k'));
        },
        Creature::SmallMogra => {
            reveal_strlit("SmallMogra");
            assert(signature("SmallMogra"@) == (10nat, 'S', 'l'));
        },
        Creature::Snailborg => {
            reveal_strlit("Snailborg");
            assert(signature("Snailborg"@) == (9nat, 'S', 'l'));
        },
        Creature::SpaceBat => {
            reveal_strlit("SpaceBat");
            assert(signature("SpaceBat"@) == (8nat, 'S', 'e'));
        },
        Creature::Spidler => {
            reveal_strlit("Spidler");
            assert(signature("Spidler"@) == (7nat, 'S', 'l'));
        },
        Creature::Spiru => {
            reveal_strlit("Spiru");
            assert(signature("Spiru"@) == (5nat, 'S', 'u'));
        },
        Creature::SpitBug => {
            reveal_strlit("SpitBug");
            assert(signature("SpitBug"@) == (7nat, 'S', 'B'));
        },
        Creature::SpitBugBossSpawn => {
            reveal_strlit("SpitBugBossSpawn");
            assert(signature("SpitBugBossSpawn"@) == (16nat, 'S', 'B'));
        },
        Creature::SwarmilyChild => {
            reveal_strlit("SwarmilyChild");
            assert(signature("SwarmilyChild"@) == (13nat, 'S', 'm'));
        },
        Creature::SwarmilyParent => {
            reveal_strlit("SwarmilyParent");
            assert(signature("SwarmilyParent"@) == (14nat, 'S', 'm'));
        },
        Creature::TrapClaw => {
            reveal_strlit("TrapClaw");
            assert(signature("TrapClaw"@) == (8nat, 'T', 'C'));
        },
        Creature::TubeWorm => {
            reveal_strlit("TubeWorm");
            assert(signature("TubeWorm"@) == (8nat, 'T', 'W'));
        },
        Creature::Volg => {
            reveal_strlit("Volg");
            assert(signature("Volg"@) == (4nat, 'V', ' '));
        },
        Creature::Yorchug => {
            reveal_strlit("Yorchug");
            assert(signature("Yorchug"@) == (7nat, 'Y', 'h'));
        },
        Creature::TubePuff => {
            reveal_strlit("TubePuff");
            assert(signature("TubePuff"@) == (8nat, 'T', 'P'));
        },
        Creature::LoopDiatomViolet => {
            reveal_strlit("LoopDiatom_Violet");
            assert(signature("LoopDiatom_Violet"@) == (17nat, 'L', 'D'));
        },
        Creature::MutantStrong => {
            reveal_strlit("Mutant_Strong");
            assert(signature("Mutant_Strong"@) == (13nat, 'M', 'n'));
        },
        Creature::RuggMeta => {
            reveal_strlit("Rugg_Meta");
            assert(signature("Rugg_Meta"@) == (9nat, 'R', '_'));
        },
        Creature::SnailborgMeta => {
            reveal_strlit("Snailborg_Meta");
            assert(signature("Snailborg_Meta"@) == (14nat, 'S', 'l'));
        },
        Creature::TrapClawGamma => {
            reveal_strlit("TrapClaw_Gamma");
            assert(signature("TrapClaw_Gamma"@) == (14nat, 'T', 'C'));
        },
        Creature::TrapClawMeta => {
            reveal_strlit("TrapClaw_Meta");
            assert(signature("TrapClaw_Meta"@) == (13nat, 'T', 'C'));
        },
        Creature::Goolumn => {
            reveal_strlit("Goolumn");
            assert(signature("Goolumn"@) == (7nat, 'G', 'u'));
        },
        Creature::Hoverling => {
            reveal_strlit("Hoverling");
            assert(signature("Hoverling"@) == (9nat, 'H', 'r'));
        },
        Creature::MushroomPoof => {
            reveal_strlit("MushroomPoof");
            assert(signature("MushroomPoof"@) == (12nat, 'M', 'r'));
        },
        Creature::SpungusSpore => {
            reveal_strlit("SpungusSpore");
            assert(signature("SpungusSpore"@) == (12nat, 'S', 'g'));
        },
        Creature::TentacleGrass => {
            reveal_strlit("TentacleGrass");
            assert(signature("TentacleGrass"@) == (13nat, 'T', 'a'));
        },
        Creature::WillOWisp => {
            reveal_strlit("WillOWisp");
            assert(signature("WillOWisp"@) == (9nat, 'W', 'O'));
        },
        Creature::Annihiwaiter => {
            reveal_strlit("Annihiwaiter");
            assert(signature("Annihiwaiter"@) == (12nat, 'A', 'h'));
        },
        Creature::Diskko => {
            reveal_strlit("Diskko");
            assert(signature("Diskko"@) == (6nat, 'D', 'k'));
        },
        Creature::Donaught => {
            reveal_strlit("Donaught");
            assert(signature("Donaught"@) == (8nat, 'D', 'u'));
        },
        Creature::Hoverbug => {
            reveal_strlit("Hoverbug");
            assert(signature("Hoverbug"@) == (8nat, 'H', 'r'));
        },
        Creature::RepairDrone => {
            reveal_strlit("RepairDrone");
            assert(signature("RepairDrone"@) == (11nat, 'R', 'i'));
        },
        Creature::SentryBot => {
            reveal_strlit("SentryBot");
            assert(signature("SentryBot"@) == (9nat, 'S', 'r'));
        },
        Creature::TieFlighter => {
            reveal_strlit("TieFlighter");
            assert(signature("TieFlighter"@) == (11nat, 'T', 'l'));
        },
        Creature::SentryBotMeta => {
            reveal_strlit("SentryBot_Meta");
            assert(signature("SentryBot_Meta"@) == (14nat, 'S', 'r'));
        },
        Creature::Nrok => {
            reveal_strlit("Nrok");
            assert(signature("Nrok"@) == (4nat, 'N', ' '));
        },
        Creature::SpitbugNest => {
            reveal_strlit("SpitbugNest");
            assert(signature("SpitbugNest"@) == (11nat, 'S', 'b'));
        },
    }
}

proof fn lemma_alias_signature()
    ensures
        signature("TubeWorm_Meta"@) == (13nat, 'T', 'W'),
{
    reveal_strlit("TubeWorm_Meta");
}

/// No two creatures share a token: an identifier or alias names at most
/// one creature.
pub proof fn lemma_token_unambiguous(a: Creature, b: Creature, token: Seq<char>)
    requires
        a.accepts(token),
        b.accepts(token),
    ensures
        a == b,
{{
    lemma_identifier_signature(a);
    lemma_identifier_signature(b);
    lemma_alias_signature();
}}

/// Decoding the identifier of a creature gives that creature back.
pub proof fn lemma_identifier_decodes(c: Creature)
    ensures
        Creature::spec_from_identifier(c.spec_identifier()) == Ok::<Creature, DecodeError>(c),
{
    let token = c.spec_identifier();
    assert(c.accepts(token));
    lemma_token_unambiguous(c, choose|d: Creature| d.accepts(token), token);
}

/// Decoding the alias of a creature gives the same creature as decoding its
/// identifier, and so the same display name.
pub proof fn lemma_alias_decodes(c: Creature)
    requires
        c.spec_alias() is Some,
    ensures
        Creature::spec_from_identifier(c.spec_alias().unwrap()) == Ok::<Creature, DecodeError>(c),
        Creature::spec_from_identifier(c.spec_alias().unwrap()) == Creature::spec_from_identifier(
            c.spec_identifier(),
        ),
{
    let token = c.spec_alias().unwrap();
    assert(c.accepts(token));
    lemma_token_unambiguous(c, choose|d: Creature| d.accepts(token), token);
    lemma_identifier_decodes(c);
}

/// The Hacker list holds exactly the creatures that `hacker` asks for, each
/// once.
pub proof fn lemma_achievement_list_exact(c: Creature)
    ensures
        Creature::spec_achievement_list().contains(c) <==> c.spec_hacker(),
        Creature::spec_achievement_list().no_duplicates(),
        Creature::spec_achievement_list().len() == 59,
{
    let list = Creature::spec_achievement_list();
    if c.spec_hacker() {
        match c {
            Creature::Arachnoptopus => assert(list[0] == c),
            Creature::Artichoker => assert(list[1] == c),
            Creature::Blite => assert(list[2] == c),
            Creature::Blurst => assert(list[3] == c),
            Creature::BlurstSpawn => assert(list[4] == c),
            Creature::Buoyg => assert(list[5] == c),
            Creature::Drometon => assert(list[6] == c),
            Creature::EyeCopter => assert(list[7] == c),
            Creature::FlynnStone => assert(list[8] == c),
            Creature::Fungine => assert(list[9] == c),
            Creature::Furglot => assert(list[10] == c),
            Creature::Gill => assert(list[11] == c),
            Creature::Glugg => assert(list[12] == c),
            Creature::Hookfish => assert(list[13] == c),
            Creature::Jorm => assert(list[14] == c),
            Creature::Jormite => {}
            Creature::LoopDiatom => assert(list[15] == c),
            Creature::Mogra => assert(list[17] == c),
            Creature::Mutant => assert(list[18] == c),
            Creature::Pliaa => assert(list[20] == c),
            Creature::Potato => assert(list[21] == c),
            Creature::Prongfish => assert(list[22] == c),
            Creature::Quadropus => assert(list[23] == c),
            Creature::Rugg => assert(list[24] == c),
            Creature::Scorpiant => assert(list[26] == c),
            Creature::Seamk => assert(list[27] == c),
            Creature::SmallMogra => assert(list[28] == c),
            Creature::Snailborg => assert(list[29] == c),
            Creature::SpaceBat => assert(list[31] == c),
            Creature::Spidler => assert(list[32] == c),
            Creature::Spiru => assert(list[33] == c),
            Creature::SpitBug => assert(list[34] == c),
            Creature::SpitBugBossSpawn => assert(list[35] == c),
            Creature::SwarmilyChild => assert(list[36] == c),
            Creature::SwarmilyParent => assert(list[37] == c),
            Creature::TrapClaw => assert(list[38] == c),
            Creature::TubeWorm => assert(list[42] == c),
            Creature::Volg => assert(list[43] == c),
            Creature::Yorchug => assert(list[44] == c),
            Creature::TubePuff => assert(list[41] == c),
            Creature::LoopDiatomViolet => assert(list[16] == c),
            Creature::MutantStrong => assert(list[19] == c),
            Creature::RuggMeta => assert(list[25] == c),
            Creature::SnailborgMeta => assert(list[30] == c),
            Creature::TrapClawGamma => assert(list[39] == c),
            Creature::TrapClawMeta => assert(list[40] == c),
            Creature::Goolumn => assert(list[45] == c),
            Creature::Hoverling => assert(list[46] == c),
            Creature::MushroomPoof => assert(list[47] == c),
            Creature::SpungusSpore => assert(list[48] == c),
            Creature::TentacleGrass => {}
            Creature::WillOWisp => assert(list[49] == c),
            Creature::Annihiwaiter => assert(list[50] == c),
            Creature::Diskko => assert(list[51] == c),
            Creature::Donaught => assert(list[52] == c),
            Creature::Hoverbug => assert(list[53] == c),
            Creature::RepairDrone => {}
            Creature::SentryBot => assert(list[54] == c),
            Creature::TieFlighter => assert(list[56] == c),
            Creature::SentryBotMeta => assert(list[55] == c),
            Creature::Nrok => assert(list[57] == c),
            Creature::SpitbugNest => assert(list[58] == c),
        }
    }
}

} // verus!
