//! Parsing of the flat-file catalog records.
//!
//! A record is one comma-separated line. The grammar is stated over
//! character sequences: `split_commas` for the fields, `dec_val`/`int_val`
//! for the numeric ones; the parsers are proved to return exactly the
//! records those spec functions describe, and `None` on anything malformed.

use crate::monster::{Monster, Move};
use crate::strutil::{lemma_name_index, name_index, str_eq_str};
use vstd::prelude::*;

verus! {

/// A decimal digit.
pub open spec fn is_digit(c: char) -> bool {
    48 <= c as int <= 57
}

/// Numeric value of a decimal digit.
pub open spec fn digit_val(c: char) -> int {
    c as int - 48
}

/// Every character of `s` is a decimal digit.
pub open spec fn all_digits(s: Seq<char>) -> bool {
    forall|i: int| 0 <= i < s.len() ==> is_digit(s[i])
}

/// The number written in decimal by `s`, most significant digit first.
pub open spec fn dec_val(s: Seq<char>) -> int
    decreases s.len(),
{
    if s.len() == 0 {
        0
    } else {
        10 * dec_val(s.drop_last()) + digit_val(s.last())
    }
}

/// `s` is a well-formed decimal numeral whose value fits in a `u32`.
pub open spec fn is_u32_str(s: Seq<char>) -> bool {
    s.len() > 0 && all_digits(s) && dec_val(s) <= 0xFFFF_FFFF
}

/// The signed value written by `s`: an optional leading minus sign, then
/// decimal digits.
pub open spec fn int_val(s: Seq<char>) -> int {
    if s.len() > 0 && s[0] == '-' {
        -dec_val(s.subrange(1, s.len() as int))
    } else {
        dec_val(s)
    }
}

/// `s` is a well-formed signed numeral whose value fits in an `i32`.
pub open spec fn is_i32_str(s: Seq<char>) -> bool {
    if s.len() > 0 && s[0] == '-' {
        let m = s.subrange(1, s.len() as int);
        m.len() > 0 && all_digits(m) && dec_val(m) <= 0x8000_0000
    } else {
        s.len() > 0 && all_digits(s) && dec_val(s) <= 0x7FFF_FFFF
    }
}

proof fn lemma_dec_val_snoc(s: Seq<char>, i: int)
    requires
        0 <= i < s.len(),
    ensures
        dec_val(s.subrange(0, i + 1)) == 10 * dec_val(s.subrange(0, i)) + digit_val(s[i]),
{
    let t = s.subrange(0, i + 1);
    assert(t.drop_last() =~= s.subrange(0, i));
    assert(t.last() == s[i]);
}

proof fn lemma_dec_val_nonneg(s: Seq<char>)
    requires
        all_digits(s),
    ensures
        dec_val(s) >= 0,
    decreases s.len(),
{
    if s.len() > 0 {
        assert forall|i: int| 0 <= i < s.drop_last().len() implies is_digit(s.drop_last()[i]) by {
            assert(s.drop_last()[i] == s[i]);
        }
        lemma_dec_val_nonneg(s.drop_last());
        assert(is_digit(s.last()));
    }
}

/// Reading more digits never shrinks the value: the numeral of a prefix is
/// at most the numeral of a longer prefix.
proof fn lemma_dec_val_grows(s: Seq<char>, i: int, j: int)
    requires
        all_digits(s),
        0 <= i <= j <= s.len(),
    ensures
        dec_val(s.subrange(0, i)) <= dec_val(s.subrange(0, j)),
    decreases j - i,
{
    if i < j {
        lemma_dec_val_grows(s, i, j - 1);
        lemma_dec_val_snoc(s, j - 1);
        assert forall|k: int| 0 <= k < s.subrange(0, j - 1).len() implies #[trigger] is_digit(
            s.subrange(0, j - 1)[k],
        ) by {
            assert(s.subrange(0, j - 1)[k] == s[k]);
        }
        lemma_dec_val_nonneg(s.subrange(0, j - 1));
        assert(is_digit(s[j - 1]));
    }
}

/// Parses an unsigned decimal numeral: `Some` exactly on the numerals whose
/// value fits in a `u32`, with that value.
pub fn parse_u32(s: &str) -> (r: Option<u32>)
    ensures
        r == if is_u32_str(s@) {
            Some(dec_val(s@) as u32)
        } else {
            None::<u32>
        },
        is_u32_str(s@) ==> 0 <= dec_val(s@) <= 0xFFFF_FFFF,
{
    let n = s.unicode_len();
    if n == 0 {
        return None;
    }
    let mut acc: u32 = 0;
    let mut i: usize = 0;
    while i < n
        invariant
            n == s@.len(),
            0 < n,
            0 <= i <= n,
            all_digits(s@.subrange(0, i as int)),
            acc == dec_val(s@.subrange(0, i as int)),
        decreases n - i,
    {
        let c = s.get_char(i);
        let v = c as u32;
        if v < 48 || v > 57 {
            assert(!is_digit(s@[i as int]));
            return None;
        }
        let d = v - 48;
        proof {
            lemma_dec_val_snoc(s@, i as int);
            assert forall|k: int| 0 <= k < i as int + 1 implies #[trigger] is_digit(
                s@.subrange(0, i as int + 1)[k],
            ) by {
                assert(s@.subrange(0, i as int + 1)[k] == s@[k]);
                if k < i as int {
                    assert(is_digit(s@.subrange(0, i as int)[k]));
                }
            }
        }
        if acc > (0xFFFF_FFFFu32 - d) / 10 {
            proof {
                assert(10 * (acc as int) + d as int > 0xFFFF_FFFF);
                if all_digits(s@) {
                    lemma_dec_val_grows(s@, i as int + 1, n as int);
                    assert(s@.subrange(0, n as int) =~= s@);
                    assert(dec_val(s@) > 0xFFFF_FFFF);
                }
            }
            return None;
        }
        acc = acc * 10 + d;
        i = i + 1;
    }
    proof {
        assert(s@.subrange(0, n as int) =~= s@);
    }
    Some(acc)
}

/// Parses a signed decimal numeral: `Some` exactly on the numerals whose
/// value fits in an `i32`, with that value.
pub fn parse_i32(s: &str) -> (r: Option<i32>)
    ensures
        r == if is_i32_str(s@) {
            Some(int_val(s@) as i32)
        } else {
            None::<i32>
        },
        is_i32_str(s@) ==> -0x8000_0000 <= int_val(s@) <= 0x7FFF_FFFF,
{
    let n = s.unicode_len();
    if n == 0 {
        return None;
    }
    let c0 = s.get_char(0);
    if c0 == '-' {
        let rest = s.substring_char(1, n);
        match parse_u32(rest) {
            None => None,
            Some(m) => {
                proof {
                    lemma_dec_val_nonneg(s@.subrange(1, n as int));
                }
                if m <= 0x7FFF_FFFF {
                    Some(-(m as i32))
                } else if m == 0x8000_0000u32 {
                    Some(i32::MIN)
                } else {
                    None
                }
            },
        }
    } else {
        match parse_u32(s) {
            None => None,
            Some(m) => {
                proof {
                    lemma_dec_val_nonneg(s@);
                }
                if m <= 0x7FFF_FFFF {
                    Some(m as i32)
                } else {
                    None
                }
            },
        }
    }
}

/// The fields of `s` split at every comma, in order: one more field than
/// there are commas, each field free of commas, the empty field allowed.
pub open spec fn split_commas(s: Seq<char>) -> Seq<Seq<char>>
    decreases s.len(),
{
    if s.len() == 0 {
        seq![Seq::<char>::empty()]
    } else {
        let rest = split_commas(s.drop_first());
        if s[0] == ',' {
            seq![Seq::<char>::empty()] + rest
        } else {
            seq![seq![s[0]] + rest[0]] + rest.drop_first()
        }
    }
}

pub proof fn lemma_split_commas_len(s: Seq<char>)
    ensures
        split_commas(s).len() >= 1,
    decreases s.len(),
{
    if s.len() > 0 {
        lemma_split_commas_len(s.drop_first());
    }
}

/// Appending one character extends the last field, or opens a fresh empty
/// field when the character is the separator.
proof fn lemma_split_commas_snoc(s: Seq<char>, c: char)
    ensures
        c == ',' ==> split_commas(s.push(c)) == split_commas(s).push(Seq::<char>::empty()),
        c != ',' ==> split_commas(s.push(c)) == split_commas(s).update(
            split_commas(s).len() - 1,
            split_commas(s).last().push(c),
        ),
    decreases s.len(),
{
    lemma_split_commas_len(s);
    let sp = s.push(c);
    if s.len() == 0 {
        assert(sp.drop_first() =~= Seq::<char>::empty());
        if c == ',' {
            assert(split_commas(sp) =~= split_commas(s).push(Seq::<char>::empty()));
        } else {
            assert(seq![sp[0]] + split_commas(sp.drop_first())[0] =~= Seq::<char>::empty().push(c));
            assert(split_commas(sp) =~= split_commas(s).update(
                0,
                split_commas(s).last().push(c),
            ));
        }
    } else {
        lemma_split_commas_snoc(s.drop_first(), c);
        lemma_split_commas_len(s.drop_first());
        assert(sp.drop_first() =~= s.drop_first().push(c));
        assert(sp[0] == s[0]);
        let rest = split_commas(s.drop_first());
        let restp = split_commas(sp.drop_first());
        if s[0] == ',' {
            if c == ',' {
                assert(split_commas(sp) =~= split_commas(s).push(Seq::<char>::empty()));
            } else {
                assert(split_commas(sp) =~= split_commas(s).update(
                    split_commas(s).len() - 1,
                    split_commas(s).last().push(c),
                ));
            }
        } else {
            if c == ',' {
                assert(restp[0] == rest[0]);
                assert(restp.drop_first() =~= rest.drop_first().push(Seq::<char>::empty()));
                assert(split_commas(sp) =~= split_commas(s).push(Seq::<char>::empty()));
            } else {
                if rest.len() == 1 {
                    assert(restp[0] == rest[0].push(c));
                    assert(restp.drop_first() =~= rest.drop_first());
                    assert(seq![s[0]] + rest[0].push(c) =~= (seq![s[0]] + rest[0]).push(c));
                    assert(split_commas(sp) =~= split_commas(s).update(
                        split_commas(s).len() - 1,
                        split_commas(s).last().push(c),
                    ));
                } else {
                    assert(restp[0] == rest[0]);
                    assert(restp.drop_first() =~= rest.drop_first().update(
                        rest.drop_first().len() - 1,
                        rest.drop_first().last().push(c),
                    ));
                    assert(split_commas(sp) =~= split_commas(s).update(
                        split_commas(s).len() - 1,
                        split_commas(s).last().push(c),
                    ));
                }
            }
        }
    }
}

/// The views of a sequence of strings, in order.
pub open spec fn views_of(v: Seq<String>) -> Seq<Seq<char>> {
    v.map_values(|x: String| x@)
}

proof fn lemma_views_of_push(v: Seq<String>, x: String)
    ensures
        views_of(v.push(x)) == views_of(v).push(x@),
{
    assert(views_of(v.push(x)) =~= views_of(v).push(x@));
}

/// Splits a line at its commas. The views of the returned strings are
/// exactly `split_commas` of the input's view.
pub fn split_comma(s: &str) -> (r: Vec<String>)
    ensures
        views_of(r@) == split_commas(s@),
{
    let n = s.unicode_len();
    let mut out: Vec<String> = Vec::new();
    let mut start: usize = 0;
    let mut i: usize = 0;
    proof {
        assert(s@.subrange(0, 0) =~= Seq::<char>::empty());
        assert(views_of(out@).push(s@.subrange(0, 0)) =~= seq![Seq::<char>::empty()]);
    }
    while i < n
        invariant
            n == s@.len(),
            0 <= start <= i <= n,
            views_of(out@).push(s@.subrange(start as int, i as int)) == split_commas(
                s@.subrange(0, i as int),
            ),
        decreases n - i,
    {
        let ghost pre = s@.subrange(0, i as int);
        let ghost spl = split_commas(pre);
        let c = s.get_char(i);
        proof {
            assert(s@.subrange(0, i as int + 1) =~= pre.push(s@[i as int]));
            lemma_split_commas_snoc(pre, s@[i as int]);
            lemma_split_commas_len(pre);
        }
        if c == ',' {
            let field = s.substring_char(start, i).to_owned();
            proof {
                lemma_views_of_push(out@, field);
            }
            out.push(field);
            start = i + 1;
            proof {
                assert(s@.subrange(start as int, i as int + 1) =~= Seq::<char>::empty());
                assert(views_of(out@) == spl);
            }
        } else {
            proof {
                assert(s@.subrange(start as int, i as int).push(s@[i as int]) =~= s@.subrange(
                    start as int,
                    i as int + 1,
                ));
                assert(spl.last() == s@.subrange(start as int, i as int));
                assert(spl.update(spl.len() - 1, spl.last().push(s@[i as int])) =~= views_of(
                    out@,
                ).push(s@.subrange(start as int, i as int + 1)));
            }
        }
        i = i + 1;
    }
    let field = s.substring_char(start, n).to_owned();
    proof {
        lemma_views_of_push(out@, field);
        assert(s@.subrange(0, n as int) =~= s@);
    }
    out.push(field);
    out
}

/// The move names of a catalog, in order.
pub open spec fn move_names(catalog: Seq<Move>) -> Seq<Seq<char>> {
    catalog.map_values(|m: Move| m.name@)
}

/// Linear search of the move catalog by name: the first move whose name
/// matches, or `None` when none does.
pub fn find_move(moves: &Vec<Move>, name: &str) -> (r: Option<usize>)
    ensures
        match r {
            Some(i) => i < moves@.len() && name_index(move_names(moves@), name@) == i,
            None => name_index(move_names(moves@), name@) == -1,
        },
{
    proof {
        lemma_name_index(move_names(moves@), name@);
    }
    let n = moves.len();
    let mut k: usize = 0;
    while k < n
        invariant
            n == moves@.len(),
            0 <= k <= n,
            forall|j: int| 0 <= j < k ==> move_names(moves@)[j] != name@,
            -1 <= name_index(move_names(moves@), name@) < n,
            name_index(move_names(moves@), name@) >= 0 ==> move_names(moves@)[name_index(
                move_names(moves@),
                name@,
            )] == name@,
            name_index(move_names(moves@), name@) >= 0 ==> forall|j: int|
                0 <= j < name_index(move_names(moves@), name@) ==> move_names(moves@)[j] != name@,
            name_index(move_names(moves@), name@) == -1 ==> forall|j: int|
                0 <= j < n ==> move_names(moves@)[j] != name@,
        decreases n - k,
    {
        if str_eq_str(moves[k].name.as_str(), name) {
            proof {
                assert(move_names(moves@)[k as int] == name@);
            }
            return Some(k);
        }
        proof {
            assert(move_names(moves@)[k as int] == moves@[k as int].name@);
        }
        k = k + 1;
    }
    None
}

/// Parses one move record: `name,power,self-attack,self-defense,
/// opponent-attack,opponent-defense,element,effect`. Extra fields are
/// ignored; a missing field or a malformed number yields `None`.
pub fn parse_move_line(line: &str) -> (r: Option<Move>)
    ensures
        ({
            let fs = split_commas(line@);
            if fs.len() >= 8 && is_u32_str(fs[1]) && is_i32_str(fs[2]) && is_i32_str(fs[3])
                && is_i32_str(fs[4]) && is_i32_str(fs[5]) {
                &&& r matches Some(m)
                &&& m.name@ == fs[0]
                &&& m.damage == dec_val(fs[1])
                &&& m.self_attack_stages == int_val(fs[2])
                &&& m.self_defense_stages == int_val(fs[3])
                &&& m.opp_attack_stages == int_val(fs[4])
                &&& m.opp_defense_stages == int_val(fs[5])
                &&& m.attack_type@ == fs[6]
                &&& m.effect@ == fs[7]
            } else {
                r is None
            }
        }),
{
    let fields = split_comma(line);
    proof {
        assert forall|k: int| 0 <= k < fields@.len() implies views_of(fields@)[k]
            == fields@[k]@ by {}
    }
    if fields.len() < 8 {
        return None;
    }
    let damage = match parse_u32(fields[1].as_str()) {
        Some(v) => v,
        None => {
            return None;
        },
    };
    let self_attack_stages = match parse_i32(fields[2].as_str()) {
        Some(v) => v,
        None => {
            return None;
        },
    };
    let self_defense_stages = match parse_i32(fields[3].as_str()) {
        Some(v) => v,
        None => {
            return None;
        },
    };
    let opp_attack_stages = match parse_i32(fields[4].as_str()) {
        Some(v) => v,
        None => {
            return None;
        },
    };
    let opp_defense_stages = match parse_i32(fields[5].as_str()) {
        Some(v) => v,
        None => {
            return None;
        },
    };
    Some(
        Move {
            name: fields[0].clone(),
            damage,
            self_attack_stages,
            self_defense_stages,
            opp_attack_stages,
            opp_defense_stages,
            attack_type: fields[6].clone(),
            effect: fields[7].clone(),
        },
    )
}

/// Parses one monster record: `name,attack,defense,element,move...`, each
/// move name resolved to its index in the move catalog. A malformed number
/// or an unresolved move name yields `None`.
pub fn parse_monster_line(line: &str, moves: &Vec<Move>) -> (r: Option<(String, Monster)>)
    ensures
        ({
            let fs = split_commas(line@);
            if fs.len() >= 4 && is_u32_str(fs[1]) && is_u32_str(fs[2]) && (forall|k: int|
                4 <= k < fs.len() ==> name_index(move_names(moves@), fs[k]) >= 0) {
                &&& r matches Some(p)
                &&& p.0@ == fs[0]
                &&& p.1.attack_stat == dec_val(fs[1])
                &&& p.1.defense_stat == dec_val(fs[2])
                &&& p.1.monster_type@ == fs[3]
                &&& p.1.moves@.len() == fs.len() - 4
                &&& (forall|j: int|
                    0 <= j < p.1.moves@.len() ==> p.1.moves@[j] == name_index(
                        move_names(moves@),
                        fs[j + 4],
                    ))
            } else {
                r is None
            }
        }),
{
    let fields = split_comma(line);
    proof {
        assert forall|k: int| 0 <= k < fields@.len() implies views_of(fields@)[k]
            == fields@[k]@ by {}
    }
    if fields.len() < 4 {
        return None;
    }
    let attack_stat = match parse_u32(fields[1].as_str()) {
        Some(v) => v,
        None => {
            return None;
        },
    };
    let defense_stat = match parse_u32(fields[2].as_str()) {
        Some(v) => v,
        None => {
            return None;
        },
    };
    let mut move_refs: Vec<usize> = Vec::new();
    let mut k: usize = 4;
    while k < fields.len()
        invariant
            views_of(fields@) == split_commas(line@),
            fields@.len() >= 4,
            4 <= k <= fields@.len(),
            move_refs@.len() == k - 4,
            forall|j: int|
                0 <= j < move_refs@.len() ==> move_refs@[j] == name_index(
                    move_names(moves@),
                    views_of(fields@)[j + 4],
                ),
            forall|j: int|
                4 <= j < k ==> name_index(move_names(moves@), views_of(fields@)[j]) >= 0,
            forall|j: int| 0 <= j < fields@.len() ==> views_of(fields@)[j] == fields@[j]@,
        decreases fields@.len() - k,
    {
        match find_move(moves, fields[k].as_str()) {
            Some(idx) => {
                move_refs.push(idx);
            },
            None => {
                proof {
                    assert(split_commas(line@)[k as int] == fields@[k as int]@);
                }
                return None;
            },
        }
        k = k + 1;
    }
    Some(
        (
            fields[0].clone(),
            Monster { attack_stat, defense_stat, moves: move_refs, monster_type: fields[3].clone() },
        ),
    )
}

} // verus!
