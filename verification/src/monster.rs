//! The battle data model and the damage-resolution engine.
//!
//! One call resolves one exchange: it computes the exact damage fraction for
//! the acting side's chosen move and applies the move's stage deltas, with
//! clamping, to the battle state's four stage counters. Damage is an exact
//! rational (`Ratio`): every factor of the formula — the fixed 30/100
//! scaling, the stage multipliers, the same-type bonus and the type bonus —
//! is a ratio of small integers.

use crate::chart::{effectiveness_halves, stab_bonus, stab_halves, type_effectiveness};
use crate::stages::{
    apply_stage_delta, clamp_stage, stage_mult_den, stage_mult_num, stage_multiplier, STAGE_LIMIT,
};
use crate::strutil::{lemma_name_index, name_index, str_eq_str};
use vstd::arithmetic::mul::{lemma_mul_strictly_positive, lemma_mul_upper_bound};
use vstd::prelude::*;

verus! {

/// Stat points granted for every full ten levels.
pub const LEVEL_STEP: u64 = 2;

/// Classification of a battle; carried for the caller, never read by the
/// damage math.
#[derive(Clone, Copy, PartialEq, Eq, Structural, Debug)]
pub enum BattleType {
    Wild,
    Trainer,
    GymLeader,
}

/// Which side acts in the exchange being resolved.
#[derive(Clone, Copy, PartialEq, Eq, Structural, Debug)]
pub enum Side {
    Player,
    Opponent,
}

/// An immutable move record. `damage` is the move's base power; zero marks
/// a status move, which deals nothing and draws no effectiveness narrative.
/// The four stage fields are the deltas applied to the acting side's own
/// (`self_*`) and the receiving side's (`opp_*`) counters when the move is
/// used. `effect` is a secondary-effect tag, stored but not read by the
/// damage math.
pub struct Move {
    pub name: String,
    pub damage: u32,
    pub self_attack_stages: i32,
    pub self_defense_stages: i32,
    pub opp_attack_stages: i32,
    pub opp_defense_stages: i32,
    pub attack_type: String,
    pub effect: String,
}

/// A species definition. Moves are held as indices into the move catalog,
/// an arena shared by every species, so no move data is duplicated.
pub struct Monster {
    pub attack_stat: u32,
    pub defense_stat: u32,
    pub moves: Vec<usize>,
    pub monster_type: String,
}

/// The transient state of one battle. A roster entry is
/// `(species name, remaining hit points, level)`; slot 0 of each team is the
/// active combatant. The four stage counters are read and written from the
/// acting side's perspective: the `self_*` pair belongs to the player's
/// side, the `opp_*` pair to the opponent's.
pub struct BattleState {
    pub active_side: Side,
    pub player_team: Vec<(String, u32, usize)>,
    pub enemy_team: Vec<(String, u32, usize)>,
    pub self_attack_stages: i32,
    pub self_defense_stages: i32,
    pub opp_attack_stages: i32,
    pub opp_defense_stages: i32,
    pub player_badges: usize,
    pub battle_type: BattleType,
}

impl BattleState {
    /// Every stage counter lies within the clamp bound.
    pub open spec fn wf(&self) -> bool {
        &&& -6 <= self.self_attack_stages <= 6
        &&& -6 <= self.self_defense_stages <= 6
        &&& -6 <= self.opp_attack_stages <= 6
        &&& -6 <= self.opp_defense_stages <= 6
    }

    /// Species name of the active combatant on the acting side.
    pub open spec fn acting_name(&self) -> Seq<char> {
        if self.active_side == Side::Player {
            self.player_team@[0].0@
        } else {
            self.enemy_team@[0].0@
        }
    }

    /// Species name of the active combatant on the receiving side.
    pub open spec fn receiving_name(&self) -> Seq<char> {
        if self.active_side == Side::Player {
            self.enemy_team@[0].0@
        } else {
            self.player_team@[0].0@
        }
    }

    /// Level of the active combatant on the acting side.
    pub open spec fn acting_level(&self) -> int {
        if self.active_side == Side::Player {
            self.player_team@[0].2 as int
        } else {
            self.enemy_team@[0].2 as int
        }
    }

    /// Level of the active combatant on the receiving side.
    pub open spec fn receiving_level(&self) -> int {
        if self.active_side == Side::Player {
            self.enemy_team@[0].2 as int
        } else {
            self.player_team@[0].2 as int
        }
    }

    /// Attack-stage counter belonging to the acting side.
    pub open spec fn acting_attack_stage(&self) -> int {
        if self.active_side == Side::Player {
            self.self_attack_stages as int
        } else {
            self.opp_attack_stages as int
        }
    }

    /// Defense-stage counter belonging to the receiving side.
    pub open spec fn receiving_defense_stage(&self) -> int {
        if self.active_side == Side::Player {
            self.opp_defense_stages as int
        } else {
            self.self_defense_stages as int
        }
    }
}

/// An exact non-negative rational, the engine's damage value.
#[derive(Clone, Copy, PartialEq, Eq, Structural, Debug)]
pub struct Ratio {
    pub num: u128,
    pub den: u128,
}

/// A combatant's stat after level scaling: the base stat plus two points
/// for every full ten levels.
pub open spec fn leveled_stat(base: int, level: int) -> int {
    base + 2 * (level / 10)
}

/// Numerator of the exact damage fraction. For a status move (base power 0)
/// the damage is zero. Otherwise it mirrors
/// `30 * base_power * (attack / defense) / 100 * stab * type`, with the
/// same-type and type bonuses counted in halves and the stage multipliers
/// split into their integer parts.
pub open spec fn damage_num(
    base_power: int,
    attack: int,
    attack_stage: int,
    defense_stage: int,
    stab: int,
    typb: int,
) -> int {
    if base_power == 0 {
        0
    } else {
        30 * base_power * attack * stage_mult_num(attack_stage) * stage_mult_den(defense_stage)
            * stab * typb
    }
}

/// Denominator of the exact damage fraction; the final 4 pairs with the two
/// halves-counted bonuses of the numerator.
pub open spec fn damage_den(
    base_power: int,
    defense: int,
    attack_stage: int,
    defense_stage: int,
) -> int {
    if base_power == 0 {
        1
    } else {
        100 * defense * stage_mult_den(attack_stage) * stage_mult_num(defense_stage) * 4
    }
}

/// A status move deals no damage: base power zero forces a zero numerator,
/// whatever the matchup, stats and stages.
pub proof fn lemma_status_move_zero_damage(
    attack: int,
    attack_stage: int,
    defense_stage: int,
    stab: int,
    typb: int,
)
    ensures
        damage_num(0, attack, attack_stage, defense_stage, stab, typb) == 0,
        damage_den(0, attack, attack_stage, defense_stage) == 1,
{
}

/// The same-type bonus scales damage without entering the classification:
/// with the bonus (4 halves) the numerator is exactly twice what it is
/// without (2 halves), over an unchanged denominator; the narrative
/// classification reads the type bonus alone.
pub proof fn lemma_stab_doubles_damage(
    base_power: int,
    attack: int,
    attack_stage: int,
    defense_stage: int,
    typb: int,
)
    ensures
        damage_num(base_power, attack, attack_stage, defense_stage, 4, typb) == 2 * damage_num(
            base_power,
            attack,
            attack_stage,
            defense_stage,
            2,
            typb,
        ),
{
    if base_power != 0 {
        let p = 30 * base_power * attack * stage_mult_num(attack_stage) * stage_mult_den(
            defense_stage,
        );
        assert(p * 4 * typb == 2 * (p * 2 * typb)) by (nonlinear_arith);
    }
}

/// The damage fraction for one exchange, from the raw ingredients: the
/// move's base power, both leveled stats, the two stage counters that apply,
/// and the two bonuses in halves. Exact: the result is the untruncated
/// rational value of the damage formula.
pub fn damage_calc(
    damage: u32,
    attack: u64,
    defense: u64,
    attack_stage: i32,
    defense_stage: i32,
    stab: u32,
    typb: u32,
) -> (r: Ratio)
    requires
        -STAGE_LIMIT <= attack_stage <= STAGE_LIMIT,
        -STAGE_LIMIT <= defense_stage <= STAGE_LIMIT,
        defense > 0,
        stab == 2 || stab == 4,
        typb == 0 || typb == 1 || typb == 2 || typb == 4,
    ensures
        r.num == damage_num(
            damage as int,
            attack as int,
            attack_stage as int,
            defense_stage as int,
            stab as int,
            typb as int,
        ),
        r.den == damage_den(
            damage as int,
            defense as int,
            attack_stage as int,
            defense_stage as int,
        ),
        r.den > 0,
{
    if damage == 0 {
        return Ratio { num: 0, den: 1 };
    }
    let (mult_num_a, mult_den_a) = stage_multiplier(attack_stage);
    let (mult_num_d, mult_den_d) = stage_multiplier(defense_stage);
    proof {
        lemma_mul_upper_bound(
            30 * (damage as int),
            30int * 0xFFFF_FFFF,
            attack as int,
            0xFFFF_FFFF_FFFF_FFFFint,
        );
        lemma_mul_upper_bound(
            30 * (damage as int) * (attack as int),
            30int * 0xFFFF_FFFF * 0xFFFF_FFFF_FFFF_FFFF,
            mult_num_a as int,
            10,
        );
        lemma_mul_upper_bound(
            30 * (damage as int) * (attack as int) * (mult_num_a as int),
            30int * 0xFFFF_FFFF * 0xFFFF_FFFF_FFFF_FFFF * 10,
            mult_den_d as int,
            10,
        );
        lemma_mul_upper_bound(
            30 * (damage as int) * (attack as int) * (mult_num_a as int) * (mult_den_d as int),
            30int * 0xFFFF_FFFF * 0xFFFF_FFFF_FFFF_FFFF * 10 * 10,
            stab as int,
            4,
        );
        lemma_mul_upper_bound(
            30 * (damage as int) * (attack as int) * (mult_num_a as int) * (mult_den_d as int) * (
            stab as int),
            30int * 0xFFFF_FFFF * 0xFFFF_FFFF_FFFF_FFFF * 10 * 10 * 4,
            typb as int,
            4,
        );
        lemma_mul_upper_bound(
            100 * (defense as int),
            100int * 0xFFFF_FFFF_FFFF_FFFF,
            mult_den_a as int,
            10,
        );
        lemma_mul_upper_bound(
            100 * (defense as int) * (mult_den_a as int),
            100int * 0xFFFF_FFFF_FFFF_FFFF * 10,
            mult_num_d as int,
            10,
        );
        lemma_mul_strictly_positive(100 * (defense as int), mult_den_a as int);
        lemma_mul_strictly_positive(100 * (defense as int) * (mult_den_a as int), mult_num_d as int);
    }
    let num: u128 = 30 * (damage as u128) * (attack as u128) * (mult_num_a as u128) * (mult_den_d
        as u128) * (stab as u128) * (typb as u128);
    let den: u128 = 100 * (defense as u128) * (mult_den_a as u128) * (mult_num_d as u128) * 4;
    Ratio { num, den }
}

/// Stage counters of `after` are those of `before` moved by the move's four
/// deltas for the given acting side, then clamped; every other field is
/// kept. The `self_*` deltas land on the acting side's own counters, the
/// `opp_*` deltas on the receiving side's.
pub open spec fn stages_updated(before: BattleState, after: BattleState, mv: Move, side: Side) -> bool {
    &&& after.active_side == before.active_side
    &&& after.player_team == before.player_team
    &&& after.enemy_team == before.enemy_team
    &&& after.player_badges == before.player_badges
    &&& after.battle_type == before.battle_type
    &&& if side == Side::Player {
        &&& after.self_attack_stages == clamp_stage(
            before.self_attack_stages + mv.self_attack_stages,
        )
        &&& after.self_defense_stages == clamp_stage(
            before.self_defense_stages + mv.self_defense_stages,
        )
        &&& after.opp_attack_stages == clamp_stage(
            before.opp_attack_stages + mv.opp_attack_stages,
        )
        &&& after.opp_defense_stages == clamp_stage(
            before.opp_defense_stages + mv.opp_defense_stages,
        )
    } else {
        &&& after.opp_attack_stages == clamp_stage(
            before.opp_attack_stages + mv.self_attack_stages,
        )
        &&& after.opp_defense_stages == clamp_stage(
            before.opp_defense_stages + mv.self_defense_stages,
        )
        &&& after.self_attack_stages == clamp_stage(
            before.self_attack_stages + mv.opp_attack_stages,
        )
        &&& after.self_defense_stages == clamp_stage(
            before.self_defense_stages + mv.opp_defense_stages,
        )
    }
}

/// Numerator of the damage fraction for a whole exchange.
pub open spec fn exchange_num(
    mv: Move,
    attacker: Monster,
    attacker_level: int,
    defender: Monster,
    attack_stage: int,
    defense_stage: int,
) -> int {
    damage_num(
        mv.damage as int,
        leveled_stat(attacker.attack_stat as int, attacker_level),
        attack_stage,
        defense_stage,
        stab_halves(mv.attack_type@, attacker.monster_type@),
        effectiveness_halves(mv.attack_type@, defender.monster_type@),
    )
}

/// Denominator of the damage fraction for a whole exchange.
pub open spec fn exchange_den(
    mv: Move,
    defender: Monster,
    defender_level: int,
    attack_stage: int,
    defense_stage: int,
) -> int {
    damage_den(
        mv.damage as int,
        leveled_stat(defender.defense_stat as int, defender_level),
        attack_stage,
        defense_stage,
    )
}

/// The leveled stat of a combatant, computed in machine integers.
fn leveled_stat_exec(base: u32, level: usize) -> (r: u64)
    ensures
        r == leveled_stat(base as int, level as int),
{
    base as u64 + LEVEL_STEP * ((level as u64) / 10)
}

/// One exchange resolved with the player acting: the damage fraction for the
/// chosen move, and the move's stage deltas applied to the counters with the
/// player's side as "self".
pub fn calculate_player_attack(
    battle_state: &mut BattleState,
    attack: &Move,
    attacker: &Monster,
    opponent: &Monster,
) -> (r: Ratio)
    requires
        old(battle_state).wf(),
        old(battle_state).player_team@.len() > 0,
        old(battle_state).enemy_team@.len() > 0,
        leveled_stat(opponent.defense_stat as int, old(battle_state).enemy_team@[0].2 as int) > 0,
    ensures
        r.num == exchange_num(
            *attack,
            *attacker,
            old(battle_state).player_team@[0].2 as int,
            *opponent,
            old(battle_state).self_attack_stages as int,
            old(battle_state).opp_defense_stages as int,
        ),
        r.den == exchange_den(
            *attack,
            *opponent,
            old(battle_state).enemy_team@[0].2 as int,
            old(battle_state).self_attack_stages as int,
            old(battle_state).opp_defense_stages as int,
        ),
        r.den > 0,
        stages_updated(*old(battle_state), *final(battle_state), *attack, Side::Player),
        final(battle_state).wf(),
{
    let leveled_attack = leveled_stat_exec(attacker.attack_stat, battle_state.player_team[0].2);
    let leveled_defense = leveled_stat_exec(opponent.defense_stat, battle_state.enemy_team[0].2);

    let stab = stab_bonus(&attack.attack_type, &attacker.monster_type);
    let typb = type_effectiveness(&attack.attack_type, &opponent.monster_type);

    let r = damage_calc(
        attack.damage,
        leveled_attack,
        leveled_defense,
        battle_state.self_attack_stages,
        battle_state.opp_defense_stages,
        stab,
        typb,
    );

    battle_state.self_attack_stages = apply_stage_delta(
        battle_state.self_attack_stages,
        attack.self_attack_stages,
    );
    battle_state.self_defense_stages = apply_stage_delta(
        battle_state.self_defense_stages,
        attack.self_defense_stages,
    );
    battle_state.opp_attack_stages = apply_stage_delta(
        battle_state.opp_attack_stages,
        attack.opp_attack_stages,
    );
    battle_state.opp_defense_stages = apply_stage_delta(
        battle_state.opp_defense_stages,
        attack.opp_defense_stages,
    );

    r
}

/// One exchange resolved with the opponent acting. The same four physical
/// counters are reinterpreted from the opponent's perspective: its attack is
/// scaled by the `opp_*` attack stage, the player's defense by the `self_*`
/// defense stage, and the move's own-side deltas land on the `opp_*`
/// counters.
pub fn calculate_opp_attack(
    battle_state: &mut BattleState,
    attack: &Move,
    attacker: &Monster,
    opponent: &Monster,
) -> (r: Ratio)
    requires
        old(battle_state).wf(),
        old(battle_state).player_team@.len() > 0,
        old(battle_state).enemy_team@.len() > 0,
        leveled_stat(opponent.defense_stat as int, old(battle_state).player_team@[0].2 as int) > 0,
    ensures
        r.num == exchange_num(
            *attack,
            *attacker,
            old(battle_state).enemy_team@[0].2 as int,
            *opponent,
            old(battle_state).opp_attack_stages as int,
            old(battle_state).self_defense_stages as int,
        ),
        r.den == exchange_den(
            *attack,
            *opponent,
            old(battle_state).player_team@[0].2 as int,
            old(battle_state).opp_attack_stages as int,
            old(battle_state).self_defense_stages as int,
        ),
        r.den > 0,
        stages_updated(*old(battle_state), *final(battle_state), *attack, Side::Opponent),
        final(battle_state).wf(),
{
    let leveled_attack = leveled_stat_exec(attacker.attack_stat, battle_state.enemy_team[0].2);
    let leveled_defense = leveled_stat_exec(opponent.defense_stat, battle_state.player_team[0].2);

    let stab = stab_bonus(&attack.attack_type, &attacker.monster_type);
    let typb = type_effectiveness(&attack.attack_type, &opponent.monster_type);

    let r = damage_calc(
        attack.damage,
        leveled_attack,
        leveled_defense,
        battle_state.opp_attack_stages,
        battle_state.self_defense_stages,
        stab,
        typb,
    );

    battle_state.opp_attack_stages = apply_stage_delta(
        battle_state.opp_attack_stages,
        attack.self_attack_stages,
    );
    battle_state.opp_defense_stages = apply_stage_delta(
        battle_state.opp_defense_stages,
        attack.self_defense_stages,
    );
    battle_state.self_attack_stages = apply_stage_delta(
        battle_state.self_attack_stages,
        attack.opp_attack_stages,
    );
    battle_state.self_defense_stages = apply_stage_delta(
        battle_state.self_defense_stages,
        attack.opp_defense_stages,
    );

    r
}

/// The species names of a catalog, in order.
pub open spec fn monster_names(catalog: Seq<(String, Monster)>) -> Seq<Seq<char>> {
    catalog.map_values(|p: (String, Monster)| p.0@)
}

/// Linear search of the monster catalog by species name: the first entry
/// whose name matches, or `None` when no entry does.
pub fn find_monster(monsters: &Vec<(String, Monster)>, name: &String) -> (r: Option<usize>)
    ensures
        match r {
            Some(i) => i < monsters@.len() && name_index(monster_names(monsters@), name@) == i,
            None => name_index(monster_names(monsters@), name@) == -1,
        },
{
    proof {
        lemma_name_index(monster_names(monsters@), name@);
    }
    let n = monsters.len();
    let mut k: usize = 0;
    while k < n
        invariant
            n == monsters@.len(),
            0 <= k <= n,
            forall|j: int| 0 <= j < k ==> monster_names(monsters@)[j] != name@,
            -1 <= name_index(monster_names(monsters@), name@) < n,
            name_index(monster_names(monsters@), name@) >= 0 ==> monster_names(monsters@)[
                name_index(monster_names(monsters@), name@)] == name@,
            name_index(monster_names(monsters@), name@) >= 0 ==> forall|j: int|
                0 <= j < name_index(monster_names(monsters@), name@)
                    ==> monster_names(monsters@)[j] != name@,
            name_index(monster_names(monsters@), name@) == -1 ==> forall|j: int|
                0 <= j < n ==> monster_names(monsters@)[j] != name@,
        decreases n - k,
    {
        if str_eq_str(monsters[k].0.as_str(), name.as_str()) {
            proof {
                assert(monster_names(monsters@)[k as int] == name@);
            }
            return Some(k);
        }
        proof {
            assert(monster_names(monsters@)[k as int] == monsters@[k as int].0@);
        }
        k = k + 1;
    }
    None
}

/// One full exchange: the acting side is read from the battle state, both
/// active combatants are resolved from the catalog by their slot-0 roster
/// names, the chosen move is fetched through the acting monster's move
/// handles, the exact damage fraction is returned, and the move's stage
/// deltas are applied to the four counters with clamping.
pub fn calculate_damage(
    moves: &Vec<Move>,
    monsters: &Vec<(String, Monster)>,
    battle_state: &mut BattleState,
    move_index: usize,
) -> (r: Ratio)
    requires
        old(battle_state).wf(),
        old(battle_state).player_team@.len() > 0,
        old(battle_state).enemy_team@.len() > 0,
        name_index(monster_names(monsters@), old(battle_state).acting_name()) >= 0,
        name_index(monster_names(monsters@), old(battle_state).receiving_name()) >= 0,
        ({
            let attacker = monsters@[name_index(
                monster_names(monsters@),
                old(battle_state).acting_name(),
            )].1;
            &&& move_index < attacker.moves@.len()
            &&& attacker.moves@[move_index as int] < moves@.len()
        }),
        ({
            let defender = monsters@[name_index(
                monster_names(monsters@),
                old(battle_state).receiving_name(),
            )].1;
            leveled_stat(defender.defense_stat as int, old(battle_state).receiving_level()) > 0
        }),
    ensures
        ({
            let bs0 = *old(battle_state);
            let attacker = monsters@[name_index(monster_names(monsters@), bs0.acting_name())].1;
            let defender = monsters@[name_index(monster_names(monsters@), bs0.receiving_name())].1;
            let mv = moves@[attacker.moves@[move_index as int] as int];
            &&& stages_updated(bs0, *final(battle_state), mv, bs0.active_side)
            &&& final(battle_state).wf()
            &&& r.num == exchange_num(
                mv,
                attacker,
                bs0.acting_level(),
                defender,
                bs0.acting_attack_stage(),
                bs0.receiving_defense_stage(),
            )
            &&& r.den == exchange_den(
                mv,
                defender,
                bs0.receiving_level(),
                bs0.acting_attack_stage(),
                bs0.receiving_defense_stage(),
            )
            &&& r.den > 0
            &&& (mv.damage == 0 ==> r.num == 0)
        }),
{
    match battle_state.active_side {
        Side::Player => {
            let attacker_idx = find_monster(monsters, &battle_state.player_team[0].0).unwrap();
            let defender_idx = find_monster(monsters, &battle_state.enemy_team[0].0).unwrap();
            let attacker = &monsters[attacker_idx].1;
            let defender = &monsters[defender_idx].1;
            let move_handle = attacker.moves[move_index];
            let attack = &moves[move_handle];
            calculate_player_attack(battle_state, attack, attacker, defender)
        },
        Side::Opponent => {
            let attacker_idx = find_monster(monsters, &battle_state.enemy_team[0].0).unwrap();
            let defender_idx = find_monster(monsters, &battle_state.player_team[0].0).unwrap();
            let attacker = &monsters[attacker_idx].1;
            let defender = &monsters[defender_idx].1;
            let move_handle = attacker.moves[move_index];
            let attack = &moves[move_handle];
            calculate_opp_attack(battle_state, attack, attacker, defender)
        },
    }
}

/// The narrative classification of an attack, from the type bonus alone: a
/// status move and a neutral hit say nothing; otherwise the line matches the
/// chart's verdict. The same-type bonus plays no part in it.
pub fn str_effectiveness(attack: &Move, defense_type: &String) -> (r: Option<String>)
    ensures
        ({
            let h = effectiveness_halves(attack.attack_type@, defense_type@);
            if attack.damage == 0 {
                r is None
            } else if h == 4 {
                r matches Some(s) && s@ == "It was super effective!"@
            } else if h == 1 {
                r matches Some(s) && s@ == "It was not very effective."@
            } else if h == 0 {
                r matches Some(s) && s@ == "It had no effect."@
            } else {
                r is None
            }
        }),
{
    if attack.damage == 0 {
        return None;
    }
    let a = type_effectiveness(&attack.attack_type, defense_type);
    if a == 4 {
        Some("It was super effective!".to_owned())
    } else if a == 1 {
        Some("It was not very effective.".to_owned())
    } else if a == 0 {
        Some("It had no effect.".to_owned())
    } else {
        None
    }
}

} // verus!
