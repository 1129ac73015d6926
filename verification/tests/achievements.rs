use avsg::achievements::{
    boss_label, bosses, contains_creature, creature_noun, death_noun, find_checkpoint,
    Achievements, BossState, LowPercent, MostlyInvincible, Pacifist, Progress, ScreenProgress,
    Status,
};
use avsg::creature::Creature;
use avsg::savedata::{
    THDifficultySetting, THItemRecord, THItemType, THMapScreenSubScreen, THSaveData,
    THSpeedrunCheckpoint, Vector2,
};

fn document() -> THSaveData {
    THSaveData {
        screen_size: 1,
        player_name: String::from("Trace"),
        difficulty: THDifficultySetting::Normal,
        randomizer_difficulty: None,
        current_weapon: String::from("DataDisruptor"),
        previous_weapon: None,
        current_tool: None,
        save_area: String::from("Eribu"),
        save_room: String::from("Start"),
        save_room_pos: Vector2 { x: 0, y: 0 },
        total_frames: 0,
        effective_frames_bits: 0,
        screen_count: 0,
        total_screen_count: 0,
        num_deaths: 0,
        red_goo_destroyed: 0,
        bricks_destroyed: 0,
        is_speed_run: false,
        is_randomizer: None,
        random_item: None,
        use_real_timers: false,
        last_map_sub_screen: THMapScreenSubScreen::MapScreen,
        base_seed: 0,
        randomizer_seed: None,
        bioflux_visions: false,
        hallucination_amount_bits: 0,
        translate_primordial: false,
        translate_vykhya: false,
        justin_bailey: false,
        trace_blues: None,
        trace_black: None,
        trace_yellow: None,
        secret_window: None,
        has_drone: false,
        cheats_used: false,
        weapon_quick_select: Vec::new(),
        items: Vec::new(),
        key_points_completed: Vec::new(),
        passwords: Vec::new(),
        area_save_data: Vec::new(),
        secret_world_save_data: None,
        auto_maps: Vec::new(),
        speedrun_checkpoints: None,
        creatures_glitched: None,
    }
}

fn item(type_: THItemType, excluded_from_count: bool) -> THItemRecord {
    THItemRecord {
        name: String::from("item"),
        type_,
        consumable: false,
        excluded_from_count,
        required_item: None,
    }
}

fn items(counts: &[(THItemType, usize)]) -> Vec<THItemRecord> {
    let mut list = Vec::new();
    for &(type_, n) in counts {
        for _ in 0..n {
            list.push(item(type_, false));
        }
    }
    list
}

fn checkpoint(name: &str, frames: i64) -> THSpeedrunCheckpoint {
    THSpeedrunCheckpoint { name: String::from(name), frames }
}

fn progress(current: u64, needed: u64) -> Progress {
    Progress { current, needed }
}

#[test]
fn brick_breaker_half_way() {
    let mut doc = document();
    doc.bricks_destroyed = 1000;
    let got = Achievements::new(&doc).brick_breaker();
    assert_eq!(got, progress(1000, 2000));
    assert_eq!(got.percent_hundredths(), Some(5000));
}

#[test]
fn brick_breaker_never_exceeds_its_goal() {
    let mut doc = document();
    doc.bricks_destroyed = 5000;
    let got = Achievements::new(&doc).brick_breaker();
    assert_eq!(got, progress(2000, 2000));
    assert_eq!(got.percent_hundredths(), Some(10000));
    for (counter, current) in [
        (0, 0),
        (1, 1),
        (1999, 1999),
        (2000, 2000),
        (2001, 2000),
        (i32::MAX, 2000),
        (-1, 0),
        (i32::MIN, 0),
    ] {
        doc.bricks_destroyed = counter;
        assert_eq!(Achievements::new(&doc).brick_breaker(), progress(current, 2000));
    }
}

#[test]
fn bubble_breaker_never_exceeds_its_goal() {
    let mut doc = document();
    doc.red_goo_destroyed = 5000;
    doc.bricks_destroyed = 7;
    let got = Achievements::new(&doc).bubble_breaker();
    assert_eq!(got, progress(2000, 2000));
    assert_eq!(got.percent_hundredths(), Some(10000));
    doc.red_goo_destroyed = 500;
    let got = Achievements::new(&doc).bubble_breaker();
    assert_eq!(got, progress(500, 2000));
    assert_eq!(got.percent_hundredths(), Some(2500));
    doc.red_goo_destroyed = -3;
    assert_eq!(Achievements::new(&doc).bubble_breaker(), progress(0, 2000));
}

#[test]
fn fragments_fold_in_groups_of_five() {
    for (fragments, nodes) in [(0, 0), (4, 0), (5, 1), (9, 1), (10, 2), (14, 2), (15, 3)] {
        let mut doc = document();
        doc.items = items(&[(THItemType::HealthNodeFragment, fragments)]);
        assert_eq!(Achievements::new(&doc).all_health(), progress(nodes, 13));
        assert_eq!(Achievements::new(&doc).all_power(), progress(0, 9));
        doc.items = items(&[(THItemType::PowerNodeFragment, fragments)]);
        assert_eq!(Achievements::new(&doc).all_power(), progress(nodes, 9));
        assert_eq!(Achievements::new(&doc).all_health(), progress(0, 13));
    }
}

#[test]
fn health_counts_nodes_and_folded_fragments() {
    let mut doc = document();
    doc.items = items(&[(THItemType::HealthNode, 3), (THItemType::HealthNodeFragment, 7)]);
    let got = Achievements::new(&doc).all_health();
    assert_eq!(got, progress(4, 13));
    assert_eq!(got.percent_hundredths(), Some(3077));
}

#[test]
fn power_counts_nodes_and_folded_fragments() {
    let mut doc = document();
    doc.items = items(&[(THItemType::PowerNode, 2), (THItemType::PowerNodeFragment, 11)]);
    let got = Achievements::new(&doc).all_power();
    assert_eq!(got, progress(4, 9));
    assert_eq!(got.percent_hundredths(), Some(4444));
}

#[test]
fn tools_count_tools_and_upgrades() {
    let mut doc = document();
    doc.items = items(&[
        (THItemType::Tool, 3),
        (THItemType::PermanentUpgrade, 5),
        (THItemType::Weapon, 2),
    ]);
    let got = Achievements::new(&doc).all_tools();
    assert_eq!(got, progress(8, 16));
    assert_eq!(got.percent_hundredths(), Some(5000));
}

#[test]
fn notes_and_weapons() {
    let mut doc = document();
    doc.items = items(&[(THItemType::Lore, 7), (THItemType::Weapon, 5)]);
    let engine = Achievements::new(&doc);
    assert_eq!(engine.all_notes(), progress(7, 28));
    assert_eq!(engine.all_notes().percent_hundredths(), Some(2500));
    assert_eq!(engine.all_weapons(), progress(5, 20));
    assert_eq!(engine.all_weapons().percent_hundredths(), Some(2500));
}

#[test]
fn excluded_records_are_never_counted() {
    let mut doc = document();
    doc.items = vec![
        item(THItemType::Weapon, false),
        item(THItemType::Weapon, true),
        item(THItemType::HealthNode, true),
        item(THItemType::Lore, true),
        item(THItemType::Lore, false),
        item(THItemType::Tool, true),
        item(THItemType::PowerNode, true),
    ];
    let engine = Achievements::new(&doc);
    assert_eq!(engine.item_type_count(THItemType::Weapon), 1);
    assert_eq!(engine.item_type_count(THItemType::HealthNode), 0);
    assert_eq!(engine.item_type_count(THItemType::Lore), 1);
    assert_eq!(engine.all_weapons(), progress(1, 20));
    assert_eq!(engine.all_health(), progress(0, 13));
    assert_eq!(engine.all_tools(), progress(0, 16));
    assert_eq!(engine.all_power(), progress(0, 9));
    assert_eq!(engine.all_items(), progress(2, 94));
}

#[test]
fn drops_count_towards_nothing() {
    let mut doc = document();
    doc.items = items(&[(THItemType::HealthDrop, 4), (THItemType::GlitchBombDrop, 6)]);
    let engine = Achievements::new(&doc);
    assert_eq!(engine.item_type_count(THItemType::HealthDrop), 4);
    assert_eq!(engine.item_type_count(THItemType::GlitchBombDrop), 6);
    assert_eq!(engine.all_items(), progress(0, 94));
}

#[test]
fn item_counts_sum_the_seven_tallies() {
    let mut doc = document();
    doc.items = items(&[
        (THItemType::HealthNode, 2),
        (THItemType::HealthNodeFragment, 9),
        (THItemType::Lore, 3),
        (THItemType::PowerNode, 1),
        (THItemType::PowerNodeFragment, 5),
        (THItemType::RangeNode, 2),
        (THItemType::SizeNode, 1),
        (THItemType::Tool, 4),
        (THItemType::PermanentUpgrade, 2),
        (THItemType::Weapon, 6),
        (THItemType::HealthDrop, 10),
    ]);
    let engine = Achievements::new(&doc);
    // 2 + 1 + 3 + 1 + 1 + 2 + 1 + 4 + 2 + 6
    assert_eq!(engine.item_counts(), progress(23, 94));
    assert_eq!(engine.all_items(), progress(23, 94));
    assert_eq!(engine.all_items().percent_hundredths(), Some(2447));
}

#[test]
fn complete_game_is_one_hundred_percent() {
    let mut doc = document();
    doc.items = items(&[
        (THItemType::HealthNode, 13),
        (THItemType::Lore, 28),
        (THItemType::PowerNode, 9),
        (THItemType::RangeNode, 4),
        (THItemType::SizeNode, 4),
        (THItemType::Tool, 16),
        (THItemType::Weapon, 20),
    ]);
    let got = Achievements::new(&doc).all_items();
    assert_eq!(got, progress(94, 94));
    assert_eq!(got.percent_hundredths(), Some(10000));
}

#[test]
fn counts_do_not_depend_on_the_order_of_the_records() {
    let mut doc = document();
    doc.items = vec![
        item(THItemType::Weapon, false),
        item(THItemType::Lore, false),
        item(THItemType::Weapon, true),
        item(THItemType::HealthNodeFragment, false),
        item(THItemType::Weapon, false),
        item(THItemType::HealthNode, false),
        item(THItemType::Tool, false),
    ];
    let categories = [
        THItemType::Weapon,
        THItemType::Lore,
        THItemType::HealthNode,
        THItemType::HealthNodeFragment,
        THItemType::Tool,
        THItemType::PowerNode,
    ];
    let before: Vec<usize> = {
        let engine = Achievements::new(&doc);
        categories.iter().map(|&c| engine.item_type_count(c)).collect()
    };
    assert_eq!(before, vec![2, 1, 1, 1, 1, 0]);
    let total = Achievements::new(&doc).all_items();
    for _ in 0..doc.items.len() {
        doc.items.rotate_left(1);
        let engine = Achievements::new(&doc);
        let after: Vec<usize> = categories.iter().map(|&c| engine.item_type_count(c)).collect();
        assert_eq!(after, before);
        assert_eq!(engine.all_items(), total);
    }
    doc.items.reverse();
    let engine = Achievements::new(&doc);
    let after: Vec<usize> = categories.iter().map(|&c| engine.item_type_count(c)).collect();
    assert_eq!(after, before);
    doc.items.swap(0, 4);
    let engine = Achievements::new(&doc);
    let after: Vec<usize> = categories.iter().map(|&c| engine.item_type_count(c)).collect();
    assert_eq!(after, before);
}

#[test]
fn map_progress_is_screens_of_screens() {
    let mut doc = document();
    doc.screen_count = 250;
    doc.total_screen_count = 1000;
    let got = Achievements::new(&doc).all_map();
    assert_eq!(got, ScreenProgress { current: 250, needed: 1000 });
    assert_eq!(got.percent_hundredths(), Some(2500));
    doc.total_screen_count = 0;
    assert_eq!(Achievements::new(&doc).all_map().percent_hundredths(), None);
}

#[test]
fn percent_rounds_to_the_nearest_hundredth() {
    assert_eq!(progress(1, 3).percent_hundredths(), Some(3333));
    assert_eq!(progress(2, 3).percent_hundredths(), Some(6667));
    assert_eq!(progress(11, 13).percent_hundredths(), Some(8462));
    assert_eq!(progress(1, 13).percent_hundredths(), Some(769));
    assert_eq!(progress(2, 64).percent_hundredths(), Some(313));
    assert_eq!(progress(0, 59).percent_hundredths(), Some(0));
    assert_eq!(progress(59, 59).percent_hundredths(), Some(10000));
    assert_eq!(progress(3, 1).percent_hundredths(), Some(30000));
    assert_eq!(progress(0, 0).percent_hundredths(), None);
    assert_eq!(progress(5, 0).percent_hundredths(), None);
    assert_eq!(
        progress(u64::MAX, 1).percent_hundredths(),
        Some(u64::MAX as u128 * 10000)
    );
    let screens = |current, needed| ScreenProgress { current, needed }.percent_hundredths();
    assert_eq!(screens(1, 3), Some(3333));
    assert_eq!(screens(-1, 3), Some(-3333));
    assert_eq!(screens(1, -3), Some(-3333));
    assert_eq!(screens(-2, -3), Some(6667));
    assert_eq!(screens(2, 64), Some(313));
    assert_eq!(screens(-2, 64), Some(-313));
    assert_eq!(screens(i32::MIN, 1), Some(-21474836480000));
    assert_eq!(screens(i32::MAX, i32::MIN), Some(-10000));
    assert_eq!(screens(7, 0), None);
}

#[test]
fn no_glitch_log_means_nothing_glitched() {
    let doc = document();
    let engine = Achievements::new(&doc);
    assert_eq!(engine.hack(), progress(0, 1));
    assert_eq!(engine.hack().percent_hundredths(), Some(0));
    assert_eq!(engine.hacker(), progress(0, 59));
    assert_eq!(engine.hacker().percent_hundredths(), Some(0));
    assert_eq!(engine.hacker_requires(), None);
    assert_eq!(doc.hacker_requires(), None);
}

#[test]
fn empty_glitch_log_requires_the_whole_list() {
    let mut doc = document();
    doc.creatures_glitched = Some(Vec::new());
    let engine = Achievements::new(&doc);
    assert_eq!(engine.hack(), progress(0, 1));
    assert_eq!(engine.hacker(), progress(0, 59));
    assert_eq!(engine.hacker_requires(), Some(Creature::achievement_list()));
    assert_eq!(doc.hacker_requires(), Some(Creature::achievement_list()));
}

#[test]
fn hack_needs_one_creature() {
    let mut doc = document();
    doc.creatures_glitched = Some(vec![Creature::Blite]);
    assert_eq!(Achievements::new(&doc).hack(), progress(1, 1));
    assert_eq!(Achievements::new(&doc).hack().percent_hundredths(), Some(10000));
    doc.creatures_glitched = Some(vec![Creature::Blite, Creature::Jorm, Creature::Nrok]);
    assert_eq!(Achievements::new(&doc).hack(), progress(1, 1));
    assert_eq!(Achievements::new(&doc).hacker(), progress(3, 59));
    assert_eq!(Achievements::new(&doc).hacker().percent_hundredths(), Some(508));
}

#[test]
fn hacker_requires_keeps_the_order_of_the_list() {
    let mut doc = document();
    // Glitched in an order of their own, one of them not asked for.
    doc.creatures_glitched = Some(vec![
        Creature::SpitbugNest,
        Creature::Jormite,
        Creature::Arachnoptopus,
        Creature::Blite,
    ]);
    let mut expected = Creature::achievement_list();
    expected.retain(|c| {
        *c != Creature::SpitbugNest && *c != Creature::Arachnoptopus && *c != Creature::Blite
    });
    assert_eq!(expected.len(), 56);
    assert_eq!(expected[0], Creature::Artichoker);
    assert_eq!(expected[1], Creature::Blurst);
    assert_eq!(expected[55], Creature::Nrok);
    assert_eq!(Achievements::new(&doc).hacker_requires(), Some(expected.clone()));
    assert_eq!(doc.hacker_requires(), Some(expected));
}

#[test]
fn hacker_requires_nothing_once_all_are_glitched() {
    let mut doc = document();
    let mut log = Creature::achievement_list();
    log.reverse();
    log.push(Creature::Blite);
    doc.creatures_glitched = Some(log);
    assert_eq!(Achievements::new(&doc).hacker_requires(), Some(Vec::new()));
    assert_eq!(Achievements::new(&doc).hacker(), progress(60, 59));
}

#[test]
fn contains_creature_finds_entries() {
    let log = vec![Creature::Blite, Creature::Jorm];
    assert!(contains_creature(&log, Creature::Blite));
    assert!(contains_creature(&log, Creature::Jorm));
    assert!(!contains_creature(&log, Creature::Jormite));
    assert!(!contains_creature(&Vec::new(), Creature::Blite));
}

#[test]
fn creature_noun_is_plural_above_one() {
    assert_eq!(creature_noun(0), "creature");
    assert_eq!(creature_noun(1), "creature");
    assert_eq!(creature_noun(2), "creatures");
    assert_eq!(creature_noun(59), "creatures");
}

#[test]
fn logged_boss_is_dead() {
    let mut doc = document();
    doc.speedrun_checkpoints = Some(vec![checkpoint("Start", 0), checkpoint("Xedur", 12345)]);
    let engine = Achievements::new(&doc);
    assert_eq!(engine.boss_state("Xedur"), BossState::Dead);
    for boss in ["Telal", "Uruku", "Gir-Tab", "Vision", "Clone", "Ukhu", "Sentinel"] {
        assert_eq!(engine.boss_state(boss), BossState::Alive);
    }
    assert_eq!(engine.boss_state("xedur"), BossState::Alive);
    assert_eq!(engine.boss_state("Xedu"), BossState::Alive);
    assert_eq!(engine.boss_state(""), BossState::Alive);
}

#[test]
fn boss_log_is_read_whether_or_not_a_speedrun() {
    let mut doc = document();
    doc.speedrun_checkpoints = Some(vec![checkpoint("Uruku", 1), checkpoint("Uruku", 2)]);
    doc.is_speed_run = false;
    assert_eq!(Achievements::new(&doc).boss_state("Uruku"), BossState::Dead);
    doc.is_speed_run = true;
    assert_eq!(Achievements::new(&doc).boss_state("Uruku"), BossState::Dead);
}

#[test]
fn no_checkpoint_log_means_every_boss_alive() {
    let doc = document();
    let engine = Achievements::new(&doc);
    for boss in bosses() {
        assert_eq!(engine.boss_state(boss), BossState::Alive);
    }
    let mut doc = document();
    doc.speedrun_checkpoints = Some(Vec::new());
    let engine = Achievements::new(&doc);
    for boss in bosses() {
        assert_eq!(engine.boss_state(boss), BossState::Alive);
    }
}

#[test]
fn find_checkpoint_matches_names_exactly() {
    let log = vec![checkpoint("Clone", 5), checkpoint("Ukhu", 9)];
    assert!(find_checkpoint(&log, "Clone"));
    assert!(find_checkpoint(&log, "Ukhu"));
    assert!(!find_checkpoint(&log, "Clon"));
    assert!(!find_checkpoint(&log, "Sentinel"));
    assert!(!find_checkpoint(&Vec::new(), "Clone"));
}

#[test]
fn boss_list() {
    assert_eq!(
        bosses(),
        vec!["Xedur", "Telal", "Uruku", "Gir-Tab", "Vision", "Clone", "Ukhu", "Sentinel"]
    );
}

#[test]
fn vision_is_shown_as_hallucination() {
    assert_eq!(boss_label("Vision"), "Hallucination");
    assert_eq!(boss_label("Xedur"), "Xedur");
    assert_eq!(boss_label("Hallucination"), "Hallucination");
    assert_eq!(boss_label("vision"), "vision");
    let mut doc = document();
    // The log is searched for the name, not for the label.
    doc.speedrun_checkpoints = Some(vec![checkpoint("Hallucination", 1)]);
    assert_eq!(Achievements::new(&doc).boss("Vision"), ("Hallucination", BossState::Alive));
    doc.speedrun_checkpoints = Some(vec![checkpoint("Vision", 1)]);
    assert_eq!(Achievements::new(&doc).boss("Vision"), ("Hallucination", BossState::Dead));
    assert_eq!(Achievements::new(&doc).boss("Telal"), ("Telal", BossState::Alive));
}

#[test]
fn boss_state_from_bool() {
    assert_eq!(BossState::from(true), BossState::Dead);
    assert_eq!(BossState::from(false), BossState::Alive);
    assert_eq!(BossState::Dead.label(), "Dead");
    assert_eq!(BossState::Alive.label(), "Alive");
    assert_eq!(Status::Intact.label(), "OK");
    assert_eq!(Status::Failed.label(), "Failed");
}

#[test]
fn mostly_invincible_allows_one_death() {
    let mut doc = document();
    let expected = |deaths, status| MostlyInvincible { deaths, maximum: 1, status };
    doc.num_deaths = 2;
    assert_eq!(Achievements::new(&doc).mostly_invincible(), expected(2, Status::Failed));
    doc.num_deaths = 1;
    assert_eq!(Achievements::new(&doc).mostly_invincible(), expected(1, Status::Intact));
    doc.num_deaths = 0;
    assert_eq!(Achievements::new(&doc).mostly_invincible(), expected(0, Status::Intact));
    doc.num_deaths = 500;
    assert_eq!(Achievements::new(&doc).mostly_invincible(), expected(500, Status::Failed));
    doc.num_deaths = -1;
    assert_eq!(Achievements::new(&doc).mostly_invincible(), expected(-1, Status::Intact));
}

#[test]
fn death_noun_is_singular_for_one() {
    assert_eq!(death_noun(1), "death");
    assert_eq!(death_noun(0), "deaths");
    assert_eq!(death_noun(2), "deaths");
    assert_eq!(death_noun(-1), "deaths");
}

#[test]
fn pacifist_fails_with_the_clone() {
    let mut doc = document();
    assert_eq!(
        Achievements::new(&doc).pacifist(),
        Pacifist { state: BossState::Alive, status: Status::Intact }
    );
    doc.speedrun_checkpoints = Some(vec![checkpoint("Xedur", 1), checkpoint("Ukhu", 2)]);
    assert_eq!(
        Achievements::new(&doc).pacifist(),
        Pacifist { state: BossState::Alive, status: Status::Intact }
    );
    doc.speedrun_checkpoints = Some(vec![checkpoint("Xedur", 1), checkpoint("Clone", 2)]);
    assert_eq!(
        Achievements::new(&doc).pacifist(),
        Pacifist { state: BossState::Dead, status: Status::Failed }
    );
}

#[test]
fn low_percent_fails_at_forty_percent() {
    let mut doc = document();
    let low = |current, status| LowPercent { progress: progress(current, 94), status };
    doc.items = items(&[(THItemType::Weapon, 20), (THItemType::Lore, 17)]);
    // 37 of 94 is 39.36 %.
    assert_eq!(Achievements::new(&doc).low_percent(), low(37, Status::Intact));
    assert_eq!(progress(37, 94).percent_hundredths(), Some(3936));
    doc.items = items(&[(THItemType::Weapon, 20), (THItemType::Lore, 18)]);
    // 38 of 94 is 40.43 %.
    assert_eq!(Achievements::new(&doc).low_percent(), low(38, Status::Failed));
    assert_eq!(progress(38, 94).percent_hundredths(), Some(4043));
    doc.items = Vec::new();
    assert_eq!(Achievements::new(&doc).low_percent(), low(0, Status::Intact));
    doc.items = items(&[(THItemType::Weapon, 94)]);
    assert_eq!(Achievements::new(&doc).low_percent(), low(94, Status::Failed));
}

#[test]
fn progress_reports_every_achievement() {
    let mut doc = document();
    doc.items = items(&[
        (THItemType::HealthNode, 1),
        (THItemType::HealthNodeFragment, 5),
        (THItemType::Lore, 2),
        (THItemType::PowerNode, 3),
        (THItemType::Tool, 1),
        (THItemType::PermanentUpgrade, 1),
        (THItemType::Weapon, 4),
    ]);
    doc.screen_count = 10;
    doc.total_screen_count = 40;
    doc.num_deaths = 2;
    doc.bricks_destroyed = 1000;
    doc.red_goo_destroyed = 5000;
    doc.creatures_glitched = Some(vec![Creature::Blite]);
    doc.speedrun_checkpoints = Some(vec![checkpoint("Xedur", 100), checkpoint("Clone", 200)]);

    let report = Achievements::new(&doc).progress();
    assert_eq!(report.all_health, progress(2, 13));
    // 2 + 2 + 3 + 2 + 4
    assert_eq!(report.all_items, progress(13, 94));
    assert_eq!(report.all_map, ScreenProgress { current: 10, needed: 40 });
    assert_eq!(report.all_notes, progress(2, 28));
    assert_eq!(report.all_power, progress(3, 9));
    assert_eq!(report.all_tools, progress(2, 16));
    assert_eq!(report.all_weapons, progress(4, 20));
    assert_eq!(report.brick_breaker, progress(1000, 2000));
    assert_eq!(report.bubble_breaker, progress(2000, 2000));
    assert_eq!(report.hack, progress(1, 1));
    assert_eq!(report.hacker, progress(1, 59));
    assert_eq!(
        report.low_percent,
        LowPercent { progress: progress(13, 94), status: Status::Intact }
    );
    assert_eq!(
        report.mostly_invincible,
        MostlyInvincible { deaths: 2, maximum: 1, status: Status::Failed }
    );
    assert_eq!(
        report.pacifist,
        Some(Pacifist { state: BossState::Dead, status: Status::Failed })
    );
    let lines: Vec<(&str, &str, BossState)> =
        report.bosses.iter().map(|b| (b.name, b.label, b.state)).collect();
    assert_eq!(
        lines,
        vec![
            ("Xedur", "Xedur", BossState::Dead),
            ("Telal", "Telal", BossState::Alive),
            ("Uruku", "Uruku", BossState::Alive),
            ("Gir-Tab", "Gir-Tab", BossState::Alive),
            ("Vision", "Hallucination", BossState::Alive),
            ("Clone", "Clone", BossState::Dead),
            ("Ukhu", "Ukhu", BossState::Alive),
            ("Sentinel", "Sentinel", BossState::Alive),
        ]
    );

    let short = doc.achievement_progress();
    assert_eq!(short.pacifist, None);
    assert_eq!(short.all_health, report.all_health);
    assert_eq!(short.all_items, report.all_items);
    assert_eq!(short.all_map, report.all_map);
    assert_eq!(short.hacker, report.hacker);
    assert_eq!(short.low_percent, report.low_percent);
    assert_eq!(short.mostly_invincible, report.mostly_invincible);
    assert_eq!(short.bosses.len(), 8);
    assert_eq!(short.bosses[5].state, BossState::Dead);
}

#[test]
fn progress_of_a_fresh_game() {
    let doc = document();
    let report = Achievements::new(&doc).progress();
    assert_eq!(report.all_health, progress(0, 13));
    assert_eq!(report.all_items, progress(0, 94));
    assert_eq!(report.hack, progress(0, 1));
    assert_eq!(report.hacker, progress(0, 59));
    assert_eq!(report.low_percent.status, Status::Intact);
    assert_eq!(report.mostly_invincible.status, Status::Intact);
    assert_eq!(
        report.pacifist,
        Some(Pacifist { state: BossState::Alive, status: Status::Intact })
    );
    assert!(report.bosses.iter().all(|b| b.state == BossState::Alive));
}
