use monster_battle::chart::{stab_bonus, type_effectiveness};
use monster_battle::monster::{
    calculate_damage, calculate_opp_attack, calculate_player_attack, damage_calc, find_monster,
    str_effectiveness, BattleState, BattleType, Monster, Move, Ratio, Side,
};
use monster_battle::stages::{apply_stage_delta, stage_multiplier};

fn mult_as_f64(stage: i32) -> f64 {
    let (num, den) = stage_multiplier(stage);
    num as f64 / den as f64
}

fn ratio_as_f64(r: Ratio) -> f64 {
    r.num as f64 / r.den as f64
}

fn mv(
    name: &str,
    damage: u32,
    self_attack: i32,
    self_defense: i32,
    opp_attack: i32,
    opp_defense: i32,
    element: &str,
) -> Move {
    Move {
        name: name.to_string(),
        damage,
        self_attack_stages: self_attack,
        self_defense_stages: self_defense,
        opp_attack_stages: opp_attack,
        opp_defense_stages: opp_defense,
        attack_type: element.to_string(),
        effect: "none".to_string(),
    }
}

fn state(side: Side, player_level: usize, enemy_level: usize) -> BattleState {
    BattleState {
        active_side: side,
        player_team: vec![("Leafling".to_string(), 100, player_level)],
        enemy_team: vec![("Embercub".to_string(), 100, enemy_level)],
        self_attack_stages: 0,
        self_defense_stages: 0,
        opp_attack_stages: 0,
        opp_defense_stages: 0,
        player_badges: 0,
        battle_type: BattleType::Wild,
    }
}

#[test]
fn stage_multiplier_reciprocal_across_range() {
    for s in -6..=6i32 {
        let up = mult_as_f64(s);
        let down = mult_as_f64(-s);
        assert!((up * down - 1.0).abs() < 1e-12);
    }
    assert!((mult_as_f64(0) - 1.0).abs() < 1e-12);
}

#[test]
fn stage_multiplier_fixed_points() {
    assert!((mult_as_f64(4) - 2.0).abs() < 1e-12);
    assert!((mult_as_f64(-4) - 0.5).abs() < 1e-12);
    assert!((mult_as_f64(0) - 1.0).abs() < 1e-12);
    assert_eq!(stage_multiplier(4), (8, 4));
    assert_eq!(stage_multiplier(-4), (4, 8));
    assert_eq!(stage_multiplier(0), (4, 4));
    assert_eq!(stage_multiplier(6), (10, 4));
    assert_eq!(stage_multiplier(-6), (4, 10));
}

#[test]
fn clamp_holds_under_extreme_deltas() {
    assert_eq!(apply_stage_delta(6, i32::MAX), 6);
    assert_eq!(apply_stage_delta(-6, i32::MIN), -6);
    assert_eq!(apply_stage_delta(0, 100), 6);
    assert_eq!(apply_stage_delta(3, -100), -6);
    assert_eq!(apply_stage_delta(5, 1), 6);
    assert_eq!(apply_stage_delta(5, 2), 6);
    for v in -6..=6i32 {
        // clamping a clamped value is a no-op
        assert_eq!(apply_stage_delta(v, 0), v);
    }
}

#[test]
fn type_chart_matches_table() {
    let pairs: [(&str, &str, u32); 23] = [
        ("Grass", "Fire", 1),
        ("Grass", "Water", 4),
        ("Grass", "Grass", 1),
        ("Grass", "Ground", 4),
        ("Grass", "Flying", 1),
        ("Fire", "Fire", 1),
        ("Fire", "Water", 1),
        ("Fire", "Grass", 4),
        ("Water", "Fire", 4),
        ("Water", "Water", 1),
        ("Water", "Grass", 1),
        ("Water", "Ground", 4),
        ("Electric", "Water", 4),
        ("Electric", "Electric", 1),
        ("Electric", "Grass", 1),
        ("Electric", "Ground", 0),
        ("Electric", "Flying", 4),
        ("Ground", "Fire", 4),
        ("Ground", "Electric", 4),
        ("Ground", "Grass", 1),
        ("Ground", "Flying", 0),
        ("Flying", "Grass", 4),
        ("Flying", "Electric", 1),
    ];
    for (attack, defense, halves) in pairs {
        assert_eq!(
            type_effectiveness(&attack.to_string(), &defense.to_string()),
            halves,
            "{} vs {}",
            attack,
            defense
        );
    }
    // unlisted pairs and unknown elements are neutral
    assert_eq!(type_effectiveness(&"Normal".to_string(), &"Fire".to_string()), 2);
    assert_eq!(type_effectiveness(&"Fire".to_string(), &"Ground".to_string()), 2);
    assert_eq!(type_effectiveness(&"Shadow".to_string(), &"Water".to_string()), 2);
}

#[test]
fn stab_doubles_only_on_matching_element() {
    assert_eq!(stab_bonus(&"Water".to_string(), &"Water".to_string()), 4);
    assert_eq!(stab_bonus(&"Water".to_string(), &"Fire".to_string()), 2);
}

#[test]
fn effectiveness_text_matches_bonus() {
    let splash = mv("Splash", 40, 0, 0, 0, 0, "Water");
    assert_eq!(
        str_effectiveness(&splash, &"Fire".to_string()),
        Some("It was super effective!".to_string())
    );
    assert_eq!(
        str_effectiveness(&splash, &"Grass".to_string()),
        Some("It was not very effective.".to_string())
    );
    assert_eq!(str_effectiveness(&splash, &"Normal".to_string()), None);
    let zap = mv("Zap", 40, 0, 0, 0, 0, "Electric");
    assert_eq!(
        str_effectiveness(&zap, &"Ground".to_string()),
        Some("It had no effect.".to_string())
    );
}

#[test]
fn status_move_yields_no_damage_and_no_text() {
    let growl = mv("Growl", 0, 0, 0, -1, 0, "Water");
    // no narrative even against a weak defender
    assert_eq!(str_effectiveness(&growl, &"Fire".to_string()), None);
    let r = damage_calc(0, 54, 42, 0, 0, 4, 4);
    assert_eq!(r.num, 0);
    assert_eq!(r.den, 1);
    assert_eq!(ratio_as_f64(r), 0.0);
}

#[test]
fn classification_ignores_stab() {
    // Water move, Water attacker, Fire defender: STAB 2.0 and type bonus 2.0
    // both enter the damage, but the narrative reads the type bonus alone.
    let surf = mv("Surf", 40, 0, 0, 0, 0, "Water");
    assert_eq!(stab_bonus(&surf.attack_type, &"Water".to_string()), 4);
    assert_eq!(type_effectiveness(&surf.attack_type, &"Fire".to_string()), 4);
    assert_eq!(
        str_effectiveness(&surf, &"Fire".to_string()),
        Some("It was super effective!".to_string())
    );
    // with STAB the damage is exactly twice the no-STAB damage
    let with_stab = damage_calc(40, 54, 42, 0, 0, 4, 4);
    let without_stab = damage_calc(40, 54, 42, 0, 0, 2, 4);
    assert!((ratio_as_f64(with_stab) - 2.0 * ratio_as_f64(without_stab)).abs() < 1e-12);
}

#[test]
fn full_exchange_scenario() {
    // attacker base attack 50 at level 20, defender base defense 40 at level
    // 10, neutral stages, Water move of power 40, Water attacker, Fire
    // defender: damage = 30*40*(54/42)/100 * 2 * 2
    let moves = vec![mv("Surf", 40, 0, 0, 0, 0, "Water")];
    let monsters = vec![
        (
            "Leafling".to_string(),
            Monster {
                attack_stat: 50,
                defense_stat: 60,
                moves: vec![0],
                monster_type: "Water".to_string(),
            },
        ),
        (
            "Embercub".to_string(),
            Monster {
                attack_stat: 35,
                defense_stat: 40,
                moves: vec![0],
                monster_type: "Fire".to_string(),
            },
        ),
    ];
    let mut bs = state(Side::Player, 20, 10);
    let r = calculate_damage(&moves, &monsters, &mut bs, 0);
    let expected = 30.0 * 40.0 * (54.0 / 42.0) / 100.0 * 2.0 * 2.0;
    assert!((ratio_as_f64(r) - expected).abs() < 1e-9);
    assert!((ratio_as_f64(r) - 61.714285714285714).abs() < 1e-9);
}

#[test]
fn full_exchange_scenario_status_move() {
    // same matchup, but the move has base power 0: no damage, no narrative
    let moves = vec![mv("Growl", 0, 0, 0, -1, 0, "Water")];
    let monsters = vec![
        (
            "Leafling".to_string(),
            Monster {
                attack_stat: 50,
                defense_stat: 60,
                moves: vec![0],
                monster_type: "Water".to_string(),
            },
        ),
        (
            "Embercub".to_string(),
            Monster {
                attack_stat: 35,
                defense_stat: 40,
                moves: vec![0],
                monster_type: "Fire".to_string(),
            },
        ),
    ];
    let mut bs = state(Side::Player, 20, 10);
    let r = calculate_damage(&moves, &monsters, &mut bs, 0);
    assert_eq!(r.num, 0);
    assert_eq!(ratio_as_f64(r), 0.0);
    assert_eq!(str_effectiveness(&moves[0], &monsters[1].1.monster_type), None);
}

#[test]
fn stage_deltas_clamp_at_the_bound() {
    // acting side's attack stage already at 6: +2 keeps it at 6, and the
    // opponent's defense stage moves down by 1
    let boost = mv("Rampage", 10, 2, 0, 0, -1, "Normal");
    let attacker = Monster {
        attack_stat: 50,
        defense_stat: 60,
        moves: vec![0],
        monster_type: "Normal".to_string(),
    };
    let defender = Monster {
        attack_stat: 35,
        defense_stat: 40,
        moves: vec![0],
        monster_type: "Fire".to_string(),
    };
    let mut bs = state(Side::Player, 20, 10);
    bs.self_attack_stages = 6;
    bs.opp_defense_stages = 0;
    calculate_player_attack(&mut bs, &boost, &attacker, &defender);
    assert_eq!(bs.self_attack_stages, 6);
    assert_eq!(bs.opp_defense_stages, -1);
    // and at the floor: a lowered stage never leaves the range
    bs.opp_defense_stages = -6;
    calculate_player_attack(&mut bs, &boost, &attacker, &defender);
    assert_eq!(bs.opp_defense_stages, -6);
}

#[test]
fn opponent_attack_crosses_the_counters() {
    // when the opponent acts, its own deltas land on the opp_* counters and
    // the target deltas on the self_* counters
    let boost = mv("Rampage", 10, 2, 1, -1, -2, "Normal");
    let attacker = Monster {
        attack_stat: 35,
        defense_stat: 40,
        moves: vec![0],
        monster_type: "Fire".to_string(),
    };
    let defender = Monster {
        attack_stat: 50,
        defense_stat: 60,
        moves: vec![0],
        monster_type: "Normal".to_string(),
    };
    let mut bs = state(Side::Opponent, 20, 10);
    calculate_opp_attack(&mut bs, &boost, &attacker, &defender);
    assert_eq!(bs.opp_attack_stages, 2);
    assert_eq!(bs.opp_defense_stages, 1);
    assert_eq!(bs.self_attack_stages, -1);
    assert_eq!(bs.self_defense_stages, -2);
}

#[test]
fn opponent_turn_uses_opponent_stages() {
    // the opponent's attack is scaled by the opp_* attack stage and the
    // player's defense by the self_* defense stage
    let moves = vec![mv("Tackle", 40, 0, 0, 0, 0, "Normal")];
    let monsters = vec![
        (
            "Leafling".to_string(),
            Monster {
                attack_stat: 50,
                defense_stat: 42,
                moves: vec![0],
                monster_type: "Grass".to_string(),
            },
        ),
        (
            "Embercub".to_string(),
            Monster {
                attack_stat: 54,
                defense_stat: 40,
                moves: vec![0],
                monster_type: "Fire".to_string(),
            },
        ),
    ];
    let mut bs = state(Side::Opponent, 0, 0);
    bs.opp_attack_stages = 4;  // doubles the enemy's attack
    bs.self_defense_stages = -4;  // halves the player's defense
    let r = calculate_damage(&moves, &monsters, &mut bs, 0);
    let expected = 30.0 * 40.0 * ((54.0 * 2.0) / (42.0 * 0.5)) / 100.0;
    assert!((ratio_as_f64(r) - expected).abs() < 1e-9);
}

#[test]
fn finds_first_matching_monster() {
    let monsters = vec![
        (
            "Embercub".to_string(),
            Monster {
                attack_stat: 1,
                defense_stat: 1,
                moves: vec![],
                monster_type: "Fire".to_string(),
            },
        ),
        (
            "Leafling".to_string(),
            Monster {
                attack_stat: 2,
                defense_stat: 2,
                moves: vec![],
                monster_type: "Grass".to_string(),
            },
        ),
    ];
    assert_eq!(find_monster(&monsters, &"Leafling".to_string()), Some(1));
    assert_eq!(find_monster(&monsters, &"Embercub".to_string()), Some(0));
    assert_eq!(find_monster(&monsters, &"Sparkit".to_string()), None);
}
