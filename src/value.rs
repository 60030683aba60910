use vstd::prelude::*;

use crate::engine::{
    forced_map, forced_unique, nested_map, nested_unique, pair_map, str_map, strs, unique_keys,
};

verus! {

/// An untyped configuration value, as a caller across a foreign boundary
/// hands it over. Numbers carry no value: no setting takes one.
#[derive(Debug)]
pub enum ConfigValue {
    Null,
    Bool(bool),
    Number,
    Text(String),
    List(Vec<ConfigValue>),
    Object(Vec<(String, ConfigValue)>),
}

pub open spec fn text_of(v: ConfigValue) -> Seq<char> {
    match v {
        ConfigValue::Text(s) => s@,
        _ => Seq::empty(),
    }
}

pub open spec fn pairs_of(v: ConfigValue) -> Seq<(String, ConfigValue)> {
    match v {
        ConfigValue::Object(p) => p@,
        _ => Seq::empty(),
    }
}

/// A list of strings.
pub open spec fn is_text_list(v: ConfigValue) -> bool {
    v matches ConfigValue::List(items) && forall|i: int|
        0 <= i < items@.len() ==> (#[trigger] items@[i]) is Text
}

/// The set of strings that a list of strings holds.
pub open spec fn text_set(v: ConfigValue) -> Set<Seq<char>> {
    match v {
        ConfigValue::List(items) => items@.map_values(|x: ConfigValue| text_of(x)).to_set(),
        _ => Set::empty(),
    }
}

/// An object, each key once, whose values are strings.
pub open spec fn is_text_map(v: ConfigValue) -> bool {
    v matches ConfigValue::Object(p) && unique_keys(p@) && forall|i: int|
        0 <= i < p@.len() ==> (#[trigger] p@[i]).1 is Text
}

/// An object, each key once, whose values are lists of strings.
pub open spec fn is_set_map(v: ConfigValue) -> bool {
    v matches ConfigValue::Object(p) && unique_keys(p@) && forall|i: int|
        0 <= i < p@.len() ==> is_text_list((#[trigger] p@[i]).1)
}

/// An object, each key once, whose values are `is_set_map`.
pub open spec fn is_nested_map(v: ConfigValue) -> bool {
    v matches ConfigValue::Object(p) && unique_keys(p@) && forall|i: int|
        0 <= i < p@.len() ==> is_set_map((#[trigger] p@[i]).1)
}

/// An object, each key once, whose values are `is_text_map`.
pub open spec fn is_forced_map(v: ConfigValue) -> bool {
    v matches ConfigValue::Object(p) && unique_keys(p@) && forall|i: int|
        0 <= i < p@.len() ==> is_text_map((#[trigger] p@[i]).1)
}

pub open spec fn text_map_of(p: Seq<(String, ConfigValue)>) -> Map<Seq<char>, Seq<char>>
    decreases p.len(),
{
    if p.len() == 0 {
        Map::empty()
    } else {
        text_map_of(p.drop_last()).insert(p.last().0@, text_of(p.last().1))
    }
}

pub open spec fn set_map_of(p: Seq<(String, ConfigValue)>) -> Map<Seq<char>, Set<Seq<char>>>
    decreases p.len(),
{
    if p.len() == 0 {
        Map::empty()
    } else {
        set_map_of(p.drop_last()).insert(p.last().0@, text_set(p.last().1))
    }
}

pub open spec fn nested_map_of(p: Seq<(String, ConfigValue)>) -> Map<
    Seq<char>,
    Map<Seq<char>, Set<Seq<char>>>,
>
    decreases p.len(),
{
    if p.len() == 0 {
        Map::empty()
    } else {
        nested_map_of(p.drop_last()).insert(p.last().0@, set_map_of(pairs_of(p.last().1)))
    }
}

pub open spec fn forced_map_of(p: Seq<(String, ConfigValue)>) -> Map<
    Seq<char>,
    Map<Seq<char>, Seq<char>>,
>
    decreases p.len(),
{
    if p.len() == 0 {
        Map::empty()
    } else {
        forced_map_of(p.drop_last()).insert(p.last().0@, text_map_of(pairs_of(p.last().1)))
    }
}

} // verus!

verus! {

/// Whether no key occurs twice.
pub fn keys_distinct(p: &Vec<(String, ConfigValue)>) -> (r: bool)
    ensures
        r == unique_keys(p@),
{
    let mut i: usize = 0;
    while i < p.len()
        invariant
            i <= p.len(),
            forall|a: int, b: int| 0 <= a < b < p@.len() && a < i ==> p@[a].0@ != p@[b].0@,
        decreases p.len() - i,
    {
        let mut j: usize = i + 1;
        while j < p.len()
            invariant
                i < p.len(),
                i + 1 <= j <= p.len(),
                forall|a: int, b: int| 0 <= a < b < p@.len() && a < i ==> p@[a].0@ != p@[b].0@,
                forall|b: int| i < b < j ==> p@[i as int].0@ != (#[trigger] p@[b]).0@,
            decreases p.len() - j,
        {
            if p[i].0 == p[j].0 {
                assert(p@[i as int].0@ == p@[j as int].0@);
                return false;
            }
            j = j + 1;
        }
        i = i + 1;
    }
    true
}

/// The strings of a list of strings; `None` for anything else.
pub fn decode_list(v: &ConfigValue) -> (r: Option<Vec<String>>)
    ensures
        r is Some <==> is_text_list(*v),
        r matches Some(l) ==> strs(l@) == text_set(*v),
{
    match v {
        ConfigValue::List(items) => {
            let mut out: Vec<String> = Vec::new();
            let mut i: usize = 0;
            while i < items.len()
                invariant
                    *v == ConfigValue::List(*items),
                    i <= items.len(),
                    out@.len() == i,
                    forall|j: int|
                        0 <= j < i ==> (#[trigger] items@[j]) is Text && out@[j]@ == text_of(
                            items@[j],
                        ),
                decreases items.len() - i,
            {
                match &items[i] {
                    ConfigValue::Text(s) => {
                        out.push(s.clone());
                    },
                    _ => {
                        return None;
                    },
                }
                i = i + 1;
            }
            assert(out@.map_values(|s: String| s@) =~= items@.map_values(
                |x: ConfigValue| text_of(x),
            ));
            Some(out)
        },
        _ => None,
    }
}

/// The pairs of an object whose values are strings; `None` for anything else.
pub fn decode_text_map(v: &ConfigValue) -> (r: Option<Vec<(String, String)>>)
    ensures
        r is Some <==> is_text_map(*v),
        r matches Some(l) ==> unique_keys(l@) && pair_map(l@) == text_map_of(pairs_of(*v)),
{
    match v {
        ConfigValue::Object(p) => {
            if !keys_distinct(p) {
                return None;
            }
            let mut out: Vec<(String, String)> = Vec::new();
            let mut i: usize = 0;
            while i < p.len()
                invariant
                    *v == ConfigValue::Object(*p),
                    unique_keys(p@),
                    i <= p.len(),
                    out@.len() == i,
                    forall|j: int|
                        0 <= j < i ==> (#[trigger] p@[j]).1 is Text && out@[j].0@ == p@[j].0@,
                    pair_map(out@) == text_map_of(p@.subrange(0, i as int)),
                decreases p.len() - i,
            {
                match &p[i].1 {
                    ConfigValue::Text(s) => {
                        let ghost prev = out@;
                        out.push((p[i].0.clone(), s.clone()));
                        assert(out@.drop_last() =~= prev);
                        assert(p@.subrange(0, i + 1).drop_last() =~= p@.subrange(0, i as int));
                    },
                    _ => {
                        return None;
                    },
                }
                i = i + 1;
            }
            assert(p@.subrange(0, p@.len() as int) =~= p@);
            assert forall|a: int, b: int| 0 <= a < b < out@.len() implies out@[a].0@
                != out@[b].0@ by {
                assert(out@[a].0@ == p@[a].0@ && out@[b].0@ == p@[b].0@);
            }
            Some(out)
        },
        _ => None,
    }
}

/// The pairs of an object whose values are lists of strings; `None` for
/// anything else.
pub fn decode_set_map(v: &ConfigValue) -> (r: Option<Vec<(String, Vec<String>)>>)
    ensures
        r is Some <==> is_set_map(*v),
        r matches Some(l) ==> unique_keys(l@) && str_map(l@) == set_map_of(pairs_of(*v)),
{
    match v {
        ConfigValue::Object(p) => {
            if !keys_distinct(p) {
                return None;
            }
            let mut out: Vec<(String, Vec<String>)> = Vec::new();
            let mut i: usize = 0;
            while i < p.len()
                invariant
                    *v == ConfigValue::Object(*p),
                    unique_keys(p@),
                    i <= p.len(),
                    out@.len() == i,
                    forall|j: int|
                        0 <= j < i ==> is_text_list((#[trigger] p@[j]).1) && out@[j].0@
                            == p@[j].0@,
                    str_map(out@) == set_map_of(p@.subrange(0, i as int)),
                decreases p.len() - i,
            {
                match decode_list(&p[i].1) {
                    Some(l) => {
                        let ghost prev = out@;
                        let ghost inner = l@;
                        out.push((p[i].0.clone(), l));
                        assert(out@.drop_last() =~= prev);
                        assert(out@[i as int].1@ == inner);
                        assert(forall|j: int| 0 <= j < i ==> out@[j] == prev[j]);
                        assert(p@.subrange(0, i + 1).drop_last() =~= p@.subrange(0, i as int));
                    },
                    None => {
                        return None;
                    },
                }
                i = i + 1;
            }
            assert(p@.subrange(0, p@.len() as int) =~= p@);
            assert forall|a: int, b: int| 0 <= a < b < out@.len() implies out@[a].0@
                != out@[b].0@ by {
                assert(out@[a].0@ == p@[a].0@ && out@[b].0@ == p@[b].0@);
            }
            Some(out)
        },
        _ => None,
    }
}

/// The pairs of an object whose values are `is_set_map`; `None` for anything
/// else.
pub fn decode_nested_map(v: &ConfigValue) -> (r: Option<Vec<(String, Vec<(String, Vec<String>)>)>>)
    ensures
        r is Some <==> is_nested_map(*v),
        r matches Some(l) ==> nested_unique(l@) && nested_map(l@) == nested_map_of(pairs_of(*v)),
{
    match v {
        ConfigValue::Object(p) => {
            if !keys_distinct(p) {
                return None;
            }
            let mut out: Vec<(String, Vec<(String, Vec<String>)>)> = Vec::new();
            let mut i: usize = 0;
            while i < p.len()
                invariant
                    *v == ConfigValue::Object(*p),
                    unique_keys(p@),
                    i <= p.len(),
                    out@.len() == i,
                    forall|j: int|
                        0 <= j < i ==> is_set_map((#[trigger] p@[j]).1) && out@[j].0@ == p@[j].0@
                            && unique_keys(out@[j].1@),
                    nested_map(out@) == nested_map_of(p@.subrange(0, i as int)),
                decreases p.len() - i,
            {
                match decode_set_map(&p[i].1) {
                    Some(l) => {
                        let ghost prev = out@;
                        let ghost inner = l@;
                        out.push((p[i].0.clone(), l));
                        assert(out@.drop_last() =~= prev);
                        assert(out@[i as int].1@ == inner);
                        assert forall|j: int| 0 <= j < i + 1 implies is_set_map((#[trigger] p@[j]).1)
                            && out@[j].0@ == p@[j].0@ && unique_keys(out@[j].1@) by {
                            if j < i {
                                assert(out@[j] == prev[j]);
                            }
                        }
                        assert(p@.subrange(0, i + 1).drop_last() =~= p@.subrange(0, i as int));
                    },
                    None => {
                        return None;
                    },
                }
                i = i + 1;
            }
            assert(p@.subrange(0, p@.len() as int) =~= p@);
            assert forall|a: int, b: int| 0 <= a < b < out@.len() implies out@[a].0@
                != out@[b].0@ by {
                assert(out@[a].0@ == p@[a].0@ && out@[b].0@ == p@[b].0@);
            }
            assert forall|j: int| 0 <= j < out@.len() implies unique_keys(
                (#[trigger] out@[j]).1@,
            ) by {
                assert(out@[j].0@ == p@[j].0@);
            }
            Some(out)
        },
        _ => None,
    }
}

/// The pairs of an object whose values are `is_text_map`; `None` for anything
/// else.
pub fn decode_forced_map(v: &ConfigValue) -> (r: Option<Vec<(String, Vec<(String, String)>)>>)
    ensures
        r is Some <==> is_forced_map(*v),
        r matches Some(l) ==> forced_unique(l@) && forced_map(l@) == forced_map_of(pairs_of(*v)),
{
    match v {
        ConfigValue::Object(p) => {
            if !keys_distinct(p) {
                return None;
            }
            let mut out: Vec<(String, Vec<(String, String)>)> = Vec::new();
            let mut i: usize = 0;
            while i < p.len()
                invariant
                    *v == ConfigValue::Object(*p),
                    unique_keys(p@),
                    i <= p.len(),
                    out@.len() == i,
                    forall|j: int|
                        0 <= j < i ==> is_text_map((#[trigger] p@[j]).1) && out@[j].0@ == p@[j].0@
                            && unique_keys(out@[j].1@),
                    forced_map(out@) == forced_map_of(p@.subrange(0, i as int)),
                decreases p.len() - i,
            {
                match decode_text_map(&p[i].1) {
                    Some(l) => {
                        let ghost prev = out@;
                        let ghost inner = l@;
                        out.push((p[i].0.clone(), l));
                        assert(out@.drop_last() =~= prev);
                        assert(out@[i as int].1@ == inner);
                        assert forall|j: int| 0 <= j < i + 1 implies is_text_map((#[trigger] p@[j]).1)
                            && out@[j].0@ == p@[j].0@ && unique_keys(out@[j].1@) by {
                            if j < i {
                                assert(out@[j] == prev[j]);
                            }
                        }
                        assert(p@.subrange(0, i + 1).drop_last() =~= p@.subrange(0, i as int));
                    },
                    None => {
                        return None;
                    },
                }
                i = i + 1;
            }
            assert(p@.subrange(0, p@.len() as int) =~= p@);
            assert forall|a: int, b: int| 0 <= a < b < out@.len() implies out@[a].0@
                != out@[b].0@ by {
                assert(out@[a].0@ == p@[a].0@ && out@[b].0@ == p@[b].0@);
            }
            assert forall|j: int| 0 <= j < out@.len() implies unique_keys(
                (#[trigger] out@[j]).1@,
            ) by {
                assert(out@[j].0@ == p@[j].0@);
            }
            Some(out)
        },
        _ => None,
    }
}

} // verus!
