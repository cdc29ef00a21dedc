//! The type chart and the same-type bonus.
//!
//! Every multiplier in the chart is a multiple of one half, so the lookup
//! returns the multiplier counted in halves: 0 for immunity, 1 for a weak
//! hit (0.5), 2 for a neutral hit (1.0), 4 for a strong hit (2.0). Elements
//! are string tags; any pair outside the chart is neutral.

use crate::strutil::str_eq_str;
use vstd::prelude::*;

verus! {

/// The asymmetric type chart: the multiplier, in halves, that an attacking
/// element takes against a defending element. Unlisted pairs are neutral.
pub open spec fn effectiveness_halves(attack: Seq<char>, defense: Seq<char>) -> int {
    if attack == "Grass"@ {
        if defense == "Fire"@ {
            1
        } else if defense == "Water"@ {
            4
        } else if defense == "Grass"@ {
            1
        } else if defense == "Ground"@ {
            4
        } else if defense == "Flying"@ {
            1
        } else {
            2
        }
    } else if attack == "Fire"@ {
        if defense == "Fire"@ {
            1
        } else if defense == "Water"@ {
            1
        } else if defense == "Grass"@ {
            4
        } else {
            2
        }
    } else if attack == "Water"@ {
        if defense == "Fire"@ {
            4
        } else if defense == "Water"@ {
            1
        } else if defense == "Grass"@ {
            1
        } else if defense == "Ground"@ {
            4
        } else {
            2
        }
    } else if attack == "Electric"@ {
        if defense == "Water"@ {
            4
        } else if defense == "Electric"@ {
            1
        } else if defense == "Grass"@ {
            1
        } else if defense == "Ground"@ {
            0
        } else if defense == "Flying"@ {
            4
        } else {
            2
        }
    } else if attack == "Ground"@ {
        if defense == "Fire"@ {
            4
        } else if defense == "Electric"@ {
            4
        } else if defense == "Grass"@ {
            1
        } else if defense == "Flying"@ {
            0
        } else {
            2
        }
    } else if attack == "Flying"@ {
        if defense == "Grass"@ {
            4
        } else if defense == "Electric"@ {
            1
        } else {
            2
        }
    } else {
        2
    }
}

/// Whatever the pair, the chart yields one of the four multipliers.
pub proof fn lemma_effectiveness_range(attack: Seq<char>, defense: Seq<char>)
    ensures
        effectiveness_halves(attack, defense) == 0 || effectiveness_halves(attack, defense) == 1
            || effectiveness_halves(attack, defense) == 2 || effectiveness_halves(attack, defense)
            == 4,
{
}

/// The same-type bonus, in halves: 4 (that is, 2.0) when the move's element
/// matches its user's own, else 2 (that is, 1.0).
pub open spec fn stab_halves(move_type: Seq<char>, user_type: Seq<char>) -> int {
    if move_type == user_type {
        4
    } else {
        2
    }
}

/// Type-chart lookup on string tags, in halves of the multiplier.
pub fn type_effectiveness(attack_type: &String, defense_type: &String) -> (h: u32)
    ensures
        h == effectiveness_halves(attack_type@, defense_type@),
{
    let a = attack_type.as_str();
    let d = defense_type.as_str();
    if str_eq_str(a, "Grass") {
        if str_eq_str(d, "Fire") {
            1
        } else if str_eq_str(d, "Water") {
            4
        } else if str_eq_str(d, "Grass") {
            1
        } else if str_eq_str(d, "Ground") {
            4
        } else if str_eq_str(d, "Flying") {
            1
        } else {
            2
        }
    } else if str_eq_str(a, "Fire") {
        if str_eq_str(d, "Fire") {
            1
        } else if str_eq_str(d, "Water") {
            1
        } else if str_eq_str(d, "Grass") {
            4
        } else {
            2
        }
    } else if str_eq_str(a, "Water") {
        if str_eq_str(d, "Fire") {
            4
        } else if str_eq_str(d, "Water") {
            1
        } else if str_eq_str(d, "Grass") {
            1
        } else if str_eq_str(d, "Ground") {
            4
        } else {
            2
        }
    } else if str_eq_str(a, "Electric") {
        if str_eq_str(d, "Water") {
            4
        } else if str_eq_str(d, "Electric") {
            1
        } else if str_eq_str(d, "Grass") {
            1
        } else if str_eq_str(d, "Ground") {
            0
        } else if str_eq_str(d, "Flying") {
            4
        } else {
            2
        }
    } else if str_eq_str(a, "Ground") {
        if str_eq_str(d, "Fire") {
            4
        } else if str_eq_str(d, "Electric") {
            4
        } else if str_eq_str(d, "Grass") {
            1
        } else if str_eq_str(d, "Flying") {
            0
        } else {
            2
        }
    } else if str_eq_str(a, "Flying") {
        if str_eq_str(d, "Grass") {
            4
        } else if str_eq_str(d, "Electric") {
            1
        } else {
            2
        }
    } else {
        2
    }
}

/// Same-type bonus on string tags, in halves of the multiplier.
pub fn stab_bonus(type1: &String, type2: &String) -> (h: u32)
    ensures
        h == stab_halves(type1@, type2@),
{
    if str_eq_str(type1.as_str(), type2.as_str()) {
        4
    } else {
        2
    }
}

} // verus!
