use avsg::savedata::{
    DecodeError, RandomizerDifficultySetting, THCollisionDirs, THDifficultySetting, THItemType,
    THMapScreenSubScreen,
};

const ITEM_TYPES: [(THItemType, &str); 12] = [
    (THItemType::GlitchBombDrop, "GLITCH_BOMB_DROP"),
    (THItemType::HealthNode, "HEALTH_NODE"),
    (THItemType::HealthNodeFragment, "HEALTH_NODE_FRAGMENT"),
    (THItemType::HealthDrop, "HEALTH_DROP"),
    (THItemType::Lore, "LORE"),
    (THItemType::PermanentUpgrade, "PERMANENT_UPGRADE"),
    (THItemType::PowerNode, "POWER_NODE"),
    (THItemType::PowerNodeFragment, "POWER_NODE_FRAGMENT"),
    (THItemType::RangeNode, "RANGE_NODE"),
    (THItemType::SizeNode, "SIZE_NODE"),
    (THItemType::Tool, "TOOL"),
    (THItemType::Weapon, "WEAPON"),
];

#[test]
fn item_type_tokens() {
    for (category, token) in ITEM_TYPES {
        assert_eq!(category.token(), token);
        assert_eq!(THItemType::from_token(token), Ok(category));
    }
}

#[test]
fn item_type_rejects_unknown_tokens() {
    for token in ["", "weapon", "Weapon", "WEAPONS", "HEALTH", "HEALTH_NODE_", "HealthNode", "DRONE"] {
        assert_eq!(THItemType::from_token(token), Err(DecodeError::UnknownItemType));
    }
}

// A record without a category counts as a weapon. This is how documents
// have always been read, and weapon tallies depend on it.
#[test]
fn item_type_defaults_to_weapon() {
    assert_eq!(THItemType::default(), THItemType::Weapon);
    assert_eq!(THItemType::from_optional_token(None), Ok(THItemType::Weapon));
}

#[test]
fn item_type_from_optional_token() {
    assert_eq!(THItemType::from_optional_token(Some("LORE")), Ok(THItemType::Lore));
    assert_eq!(THItemType::from_optional_token(Some("WEAPON")), Ok(THItemType::Weapon));
    assert_eq!(
        THItemType::from_optional_token(Some("")),
        Err(DecodeError::UnknownItemType)
    );
    assert_eq!(
        THItemType::from_optional_token(Some("lore")),
        Err(DecodeError::UnknownItemType)
    );
}

#[test]
fn difficulty_tokens() {
    assert_eq!(THDifficultySetting::Normal.token(), "NORMAL");
    assert_eq!(THDifficultySetting::Hard.token(), "HARD");
    assert_eq!(THDifficultySetting::from_token("NORMAL"), Ok(THDifficultySetting::Normal));
    assert_eq!(THDifficultySetting::from_token("HARD"), Ok(THDifficultySetting::Hard));
    assert_eq!(
        THDifficultySetting::from_token("EASY"),
        Err(DecodeError::UnknownDifficulty)
    );
    assert_eq!(
        THDifficultySetting::from_token("Normal"),
        Err(DecodeError::UnknownDifficulty)
    );
}

#[test]
fn randomizer_difficulty_tokens() {
    let table = [
        (RandomizerDifficultySetting::Default, "DEFAULT"),
        (RandomizerDifficultySetting::Advanced, "ADVANCED"),
        (RandomizerDifficultySetting::Masochist, "MASOCHIST"),
        (RandomizerDifficultySetting::Easy, "EASY"),
        (RandomizerDifficultySetting::Normal, "NORMAL"),
        (RandomizerDifficultySetting::Hard, "HARD"),
    ];
    for (value, token) in table {
        assert_eq!(value.token(), token);
        assert_eq!(RandomizerDifficultySetting::from_token(token), Ok(value));
    }
    assert_eq!(
        RandomizerDifficultySetting::from_token("Default"),
        Err(DecodeError::UnknownRandomizerDifficulty)
    );
}

#[test]
fn collision_dirs_tokens() {
    let table = [
        (THCollisionDirs::NoDir, "None"),
        (THCollisionDirs::Bottom, "Bottom"),
        (THCollisionDirs::Left, "Left"),
        (THCollisionDirs::Top, "Top"),
        (THCollisionDirs::Right, "Right"),
    ];
    for (value, token) in table {
        assert_eq!(value.token(), token);
        assert_eq!(THCollisionDirs::from_token(token), Ok(value));
    }
    assert_eq!(
        THCollisionDirs::from_token("NONE"),
        Err(DecodeError::UnknownCollisionDirs)
    );
    assert_eq!(
        THCollisionDirs::from_token("NoDir"),
        Err(DecodeError::UnknownCollisionDirs)
    );
}

#[test]
fn sub_screen_tokens() {
    let table = [
        (THMapScreenSubScreen::MapScreen, "MAP"),
        (THMapScreenSubScreen::Start, "START"),
        (THMapScreenSubScreen::Inventory, "INVENTORY"),
        (THMapScreenSubScreen::Notes, "NOTES"),
        (THMapScreenSubScreen::Password, "PASSWORD"),
        (THMapScreenSubScreen::Console, "CONSOLE"),
        (THMapScreenSubScreen::Count, "COUNT"),
    ];
    for (value, token) in table {
        assert_eq!(value.token(), token);
        assert_eq!(THMapScreenSubScreen::from_token(token), Ok(value));
    }
    assert_eq!(
        THMapScreenSubScreen::from_token("Map"),
        Err(DecodeError::UnknownSubScreen)
    );
}
