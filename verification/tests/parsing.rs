use monster_battle::monster::{Monster, Move};
use monster_battle::parse::{
    find_move, parse_i32, parse_monster_line, parse_move_line, parse_u32, split_comma,
};

fn mv(name: &str, element: &str) -> Move {
    Move {
        name: name.to_string(),
        damage: 40,
        self_attack_stages: 0,
        self_defense_stages: 0,
        opp_attack_stages: 0,
        opp_defense_stages: 0,
        attack_type: element.to_string(),
        effect: "none".to_string(),
    }
}

#[test]
fn parses_unsigned_numerals() {
    assert_eq!(parse_u32("0"), Some(0));
    assert_eq!(parse_u32("35"), Some(35));
    assert_eq!(parse_u32("4294967295"), Some(u32::MAX));
    assert_eq!(parse_u32("4294967296"), None);
    assert_eq!(parse_u32("99999999999999999999"), None);
    assert_eq!(parse_u32(""), None);
    assert_eq!(parse_u32("12a"), None);
    assert_eq!(parse_u32("-3"), None);
    assert_eq!(parse_u32("007"), Some(7));
}

#[test]
fn parses_signed_numerals() {
    assert_eq!(parse_i32("0"), Some(0));
    assert_eq!(parse_i32("-1"), Some(-1));
    assert_eq!(parse_i32("2147483647"), Some(i32::MAX));
    assert_eq!(parse_i32("2147483648"), None);
    assert_eq!(parse_i32("-2147483648"), Some(i32::MIN));
    assert_eq!(parse_i32("-2147483649"), None);
    assert_eq!(parse_i32("-"), None);
    assert_eq!(parse_i32("- 1"), None);
    assert_eq!(parse_i32("+1"), None);
}

#[test]
fn splits_on_every_comma() {
    assert_eq!(split_comma("a,b,c"), vec!["a", "b", "c"]);
    assert_eq!(split_comma(""), vec![""]);
    assert_eq!(split_comma("a,,b"), vec!["a", "", "b"]);
    assert_eq!(split_comma(",x,"), vec!["", "x", ""]);
    assert_eq!(split_comma("plain"), vec!["plain"]);
}

#[test]
fn parses_a_move_record() {
    let m = parse_move_line("Tackle,35,0,0,0,-1,Normal,none").unwrap();
    assert_eq!(m.name, "Tackle");
    assert_eq!(m.damage, 35);
    assert_eq!(m.self_attack_stages, 0);
    assert_eq!(m.self_defense_stages, 0);
    assert_eq!(m.opp_attack_stages, 0);
    assert_eq!(m.opp_defense_stages, -1);
    assert_eq!(m.attack_type, "Normal");
    assert_eq!(m.effect, "none");
}

#[test]
fn rejects_malformed_move_records() {
    // too few fields
    assert!(parse_move_line("Tackle,35,0,0,0,-1,Normal").is_none());
    // non-numeric power
    assert!(parse_move_line("Tackle,heavy,0,0,0,-1,Normal,none").is_none());
    // stage delta out of range
    assert!(parse_move_line("Tackle,35,0,0,0,-9999999999,Normal,none").is_none());
    // extra fields are ignored
    assert!(parse_move_line("Tackle,35,0,0,0,-1,Normal,none,spare").is_some());
}

#[test]
fn resolves_move_names_by_first_match() {
    let moves = vec![mv("Tackle", "Normal"), mv("Surf", "Water")];
    assert_eq!(find_move(&moves, "Surf"), Some(1));
    assert_eq!(find_move(&moves, "Tackle"), Some(0));
    assert_eq!(find_move(&moves, "Fly"), None);
}

#[test]
fn parses_a_monster_record() {
    let moves = vec![mv("Tackle", "Normal"), mv("Surf", "Water"), mv("Ember", "Fire")];
    let (name, mon): (String, Monster) =
        parse_monster_line("Aquapup,50,40,Water,Surf,Tackle", &moves).unwrap();
    assert_eq!(name, "Aquapup");
    assert_eq!(mon.attack_stat, 50);
    assert_eq!(mon.defense_stat, 40);
    assert_eq!(mon.monster_type, "Water");
    assert_eq!(mon.moves, vec![1, 0]);
}

#[test]
fn rejects_malformed_monster_records() {
    let moves = vec![mv("Tackle", "Normal")];
    // unresolved move reference
    assert!(parse_monster_line("Aquapup,50,40,Water,Surf", &moves).is_none());
    // non-numeric stat
    assert!(parse_monster_line("Aquapup,fast,40,Water,Tackle", &moves).is_none());
    // too few fields
    assert!(parse_monster_line("Aquapup,50,40", &moves).is_none());
    // a monster without moves is fine
    assert!(parse_monster_line("Aquapup,50,40,Water", &moves).is_some());
}
