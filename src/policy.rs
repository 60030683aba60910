use vstd::prelude::*;

use crate::config::{ConfigView, PolicyConfig, overlay};
use crate::engine::{
    EngineConfig, accepts, builder_config, engine_defaults, fresh_builder, get_allowed_classes,
    get_clean_content_tags, get_generic_attributes, get_tag_attributes, get_link_rel, get_tags,
    set_allowed_classes, set_clean_content_tags, set_forced_values, set_generic_attribute_prefixes,
    set_generic_attributes, set_id_prefix, set_link_rel, set_strip_comments,
    set_tag_attribute_values, set_tag_attributes, set_tags, set_url_schemes, str_map, strs,
    unique_keys, pair_map, forced_map, nested_map, nested_unique, forced_unique,
};

verus! {

/// Membership in the set of strings that a list holds.
pub proof fn lemma_strs_contains(v: Seq<String>, x: Seq<char>)
    ensures
        strs(v).contains(x) <==> exists|j: int| 0 <= j < v.len() && (#[trigger] v[j])@ == x,
{
    let m = v.map_values(|s: String| s@);
    if strs(v).contains(x) {
        assert(m.contains(x));
        let j = choose|j: int| 0 <= j < m.len() && m[j] == x;
        assert(v[j]@ == x);
    }
    if exists|j: int| 0 <= j < v.len() && (#[trigger] v[j])@ == x {
        let j = choose|j: int| 0 <= j < v.len() && (#[trigger] v[j])@ == x;
        assert(m[j] == x);
        assert(m.contains(x));
    }
}

/// The keys of a list of pairs are those of its map; with each key listed
/// once, the map gives each key the set listed beside it.
pub proof fn lemma_str_map(v: Seq<(String, Vec<String>)>)
    ensures
        forall|k: Seq<char>|
            #[trigger] str_map(v).contains_key(k) <==> exists|j: int|
                0 <= j < v.len() && (#[trigger] v[j]).0@ == k,
        unique_keys(v) ==> forall|j: int|
            0 <= j < v.len() ==> str_map(v)[(#[trigger] v[j]).0@] == strs(v[j].1@),
    decreases v.len(),
{
    if v.len() > 0 {
        let w = v.drop_last();
        lemma_str_map(w);
        assert forall|k: Seq<char>|
            #[trigger] str_map(v).contains_key(k) <==> exists|j: int|
                0 <= j < v.len() && (#[trigger] v[j]).0@ == k by {
            assert(str_map(v) == str_map(w).insert(v.last().0@, strs(v.last().1@)));
            if str_map(v).contains_key(k) && k != v.last().0@ {
                assert(str_map(w).contains_key(k));
                let j = choose|j: int| 0 <= j < w.len() && (#[trigger] w[j]).0@ == k;
                assert(v[j] == w[j]);
            }
            if exists|j: int| 0 <= j < v.len() && (#[trigger] v[j]).0@ == k {
                let j = choose|j: int| 0 <= j < v.len() && (#[trigger] v[j]).0@ == k;
                if j < w.len() {
                    assert(w[j] == v[j]);
                }
            }
        }
        assert(str_map(v) == str_map(w).insert(v.last().0@, strs(v.last().1@)));
        if unique_keys(v) {
            assert(unique_keys(w)) by {
                assert forall|i: int, j: int| 0 <= i < j < w.len() implies w[i].0@ != w[j].0@ by {
                    assert(w[i] == v[i] && w[j] == v[j]);
                }
            }
            assert forall|j: int| 0 <= j < v.len() implies str_map(v)[(#[trigger] v[j]).0@]
                == strs(v[j].1@) by {
                if j < w.len() {
                    assert(w[j] == v[j]);
                    assert(v[j].0@ != v.last().0@);
                }
            }
        }
    }
}

/// Whether a list holds `s`.
fn holds(v: &Vec<String>, s: &String) -> (r: bool)
    ensures
        r == strs(v@).contains(s@),
{
    proof {
        lemma_strs_contains(v@, s@);
    }
    let mut i: usize = 0;
    while i < v.len()
        invariant
            i <= v.len(),
            forall|j: int| 0 <= j < i ==> (#[trigger] v@[j])@ != s@,
        decreases v.len() - i,
    {
        if v[i] == *s {
            proof {
                lemma_strs_contains(v@, s@);
            }
            assert(v@[i as int]@ == s@);
            return true;
        }
        i = i + 1;
    }
    false
}

/// Where a list of pairs with unique keys gives key `k`.
fn position(m: &Vec<(String, Vec<String>)>, k: &String) -> (r: Option<usize>)
    requires
        unique_keys(m@),
    ensures
        r is None <==> !str_map(m@).contains_key(k@),
        r matches Some(i) ==> i < m@.len() && str_map(m@)[k@] == strs(m@[i as int].1@),
{
    proof {
        lemma_str_map(m@);
    }
    let mut i: usize = 0;
    while i < m.len()
        invariant
            i <= m.len(),
            unique_keys(m@),
            forall|j: int| 0 <= j < i ==> (#[trigger] m@[j]).0@ != k@,
        decreases m.len() - i,
    {
        if m[i].0 == *k {
            proof {
                lemma_str_map(m@);
            }
            assert(m@[i as int].0@ == k@);
            return Some(i);
        }
        i = i + 1;
    }
    None
}

/// Whether no tag whose content is dropped is also allowed, as a tag or as
/// a key of the per-tag attributes.
fn content_tags_apart(
    tags: &Vec<String>,
    content: &Vec<String>,
    attrs: &Vec<(String, Vec<String>)>,
) -> (r: bool)
    requires
        unique_keys(attrs@),
    ensures
        r == forall|t: Seq<char>| #[trigger]
            strs(content@).contains(t) ==> !strs(tags@).contains(t) && !str_map(
                attrs@,
            ).contains_key(t),
{
    let mut i: usize = 0;
    while i < content.len()
        invariant
            i <= content.len(),
            unique_keys(attrs@),
            forall|j: int|
                0 <= j < i ==> !strs(tags@).contains((#[trigger] content@[j])@) && !str_map(
                    attrs@,
                ).contains_key(content@[j]@),
        decreases content.len() - i,
    {
        if holds(tags, &content[i]) || position(attrs, &content[i]).is_some() {
            proof {
                lemma_strs_contains(content@, content@[i as int]@);
                assert(strs(content@).contains(content@[i as int]@));
            }
            return false;
        }
        i = i + 1;
    }
    assert forall|t: Seq<char>| #[trigger]
        strs(content@).contains(t) implies !strs(tags@).contains(t) && !str_map(
            attrs@,
        ).contains_key(t) by {
        lemma_strs_contains(content@, t);
    }
    true
}

/// Whether `class` is neither a generic attribute nor allowed on a tag that
/// has allowed classes, for each tag that has them.
fn classes_apart(
    generic: &Vec<String>,
    attrs: &Vec<(String, Vec<String>)>,
    classes: &Vec<(String, Vec<String>)>,
) -> (r: bool)
    requires
        unique_keys(attrs@),
    ensures
        r == forall|t: Seq<char>| #[trigger]
            str_map(classes@).contains_key(t) ==> !strs(generic@).contains("class"@) && !(
            str_map(attrs@).contains_key(t) && str_map(attrs@)[t].contains("class"@)),
{
    proof {
        lemma_str_map(classes@);
    }
    let class = String::from_str("class");
    let mut i: usize = 0;
    while i < classes.len()
        invariant
            i <= classes.len(),
            unique_keys(attrs@),
            class@ == "class"@,
            forall|j: int|
                0 <= j < i ==> !strs(generic@).contains("class"@) && !(str_map(
                    attrs@,
                ).contains_key((#[trigger] classes@[j]).0@) && str_map(attrs@)[classes@[
                j].0@].contains("class"@)),
        decreases classes.len() - i,
    {
        let bad = holds(generic, &class) || match position(attrs, &classes[i].0) {
            Some(j) => holds(&attrs[j].1, &class),
            None => false,
        };
        if bad {
            proof {
                lemma_str_map(classes@);
            }
            assert(str_map(classes@).contains_key(classes@[i as int].0@));
            return false;
        }
        i = i + 1;
    }
    true
}

/// Whether the engine accepts what builder `b` is configured with.
pub(crate) fn check_accepts(b: &ammonia::Builder) -> (r: bool)
    ensures
        r == accepts(builder_config(*b)),
{
    let tags = get_tags(b);
    let content = get_clean_content_tags(b);
    let attrs = get_tag_attributes(b);
    let generic = get_generic_attributes(b);
    let classes = get_allowed_classes(b);
    if !content_tags_apart(&tags, &content, &attrs) || !classes_apart(&generic, &attrs, &classes) {
        return false;
    }
    if get_link_rel(b).is_some() {
        let rel = String::from_str("rel");
        let anchor = String::from_str("a");
        let bad = holds(&generic, &rel) || match position(&attrs, &anchor) {
            Some(j) => holds(&attrs[j].1, &rel),
            None => false,
        };
        if bad {
            return false;
        }
    }
    let animate = String::from_str("animate");
    let animate_transform = String::from_str("animateTransform");
    let animate_motion = String::from_str("animateMotion");
    let animate_color = String::from_str("animateColor");
    let set = String::from_str("set");
    !holds(&tags, &animate) && !holds(&tags, &animate_transform) && !holds(&tags, &animate_motion)
        && !holds(&tags, &animate_color) && !holds(&tags, &set)
}

/// The allowed attribute values `v`, with every tag and attribute pair that
/// `f` forces a value for left out: a forced value is set whatever the
/// allowed values say, so they are not consulted for that pair.
pub open spec fn without_forced(
    v: Map<Seq<char>, Map<Seq<char>, Set<Seq<char>>>>,
    f: Map<Seq<char>, Map<Seq<char>, Seq<char>>>,
) -> Map<Seq<char>, Map<Seq<char>, Set<Seq<char>>>> {
    Map::new(
        |t: Seq<char>| v.contains_key(t),
        |t: Seq<char>|
            if f.contains_key(t) {
                v[t].remove_keys(f[t].dom())
            } else {
                v[t]
            },
    )
}

/// A policy with the precedence of forced values made explicit: where both
/// are given, the allowed values keep no pair that has a forced value.
pub open spec fn forced_first(c: ConfigView) -> ConfigView {
    ConfigView {
        tag_attribute_values: match (c.tag_attribute_values, c.set_tag_attribute_values) {
            (Some(v), Some(f)) => Some(without_forced(v, f)),
            _ => c.tag_attribute_values,
        },
        ..c
    }
}

/// The keys of a list of pairs are those of its map.
pub proof fn lemma_pair_map_keys(v: Seq<(String, String)>)
    ensures
        forall|k: Seq<char>|
            #[trigger] pair_map(v).contains_key(k) <==> exists|j: int|
                0 <= j < v.len() && (#[trigger] v[j]).0@ == k,
    decreases v.len(),
{
    if v.len() > 0 {
        let w = v.drop_last();
        lemma_pair_map_keys(w);
        assert forall|k: Seq<char>|
            #[trigger] pair_map(v).contains_key(k) <==> exists|j: int|
                0 <= j < v.len() && (#[trigger] v[j]).0@ == k by {
            assert(pair_map(v) == pair_map(w).insert(v.last().0@, v.last().1@));
            if pair_map(v).contains_key(k) && k != v.last().0@ {
                assert(pair_map(w).contains_key(k));
                let j = choose|j: int| 0 <= j < w.len() && (#[trigger] w[j]).0@ == k;
                assert(v[j] == w[j]);
            }
            if exists|j: int| 0 <= j < v.len() && (#[trigger] v[j]).0@ == k {
                let j = choose|j: int| 0 <= j < v.len() && (#[trigger] v[j]).0@ == k;
                if j < w.len() {
                    assert(w[j] == v[j]);
                }
            }
        }
    }
}

/// With each key listed once, the two-level map gives each key the map
/// listed beside it.
pub proof fn lemma_forced_map(v: Seq<(String, Vec<(String, String)>)>)
    ensures
        forall|k: Seq<char>|
            #[trigger] forced_map(v).contains_key(k) <==> exists|j: int|
                0 <= j < v.len() && (#[trigger] v[j]).0@ == k,
        unique_keys(v) ==> forall|j: int|
            0 <= j < v.len() ==> forced_map(v)[(#[trigger] v[j]).0@] == pair_map(v[j].1@),
    decreases v.len(),
{
    if v.len() > 0 {
        let w = v.drop_last();
        lemma_forced_map(w);
        assert(forced_map(v) == forced_map(w).insert(v.last().0@, pair_map(v.last().1@)));
        assert forall|k: Seq<char>|
            #[trigger] forced_map(v).contains_key(k) <==> exists|j: int|
                0 <= j < v.len() && (#[trigger] v[j]).0@ == k by {
            if forced_map(v).contains_key(k) && k != v.last().0@ {
                assert(forced_map(w).contains_key(k));
                let j = choose|j: int| 0 <= j < w.len() && (#[trigger] w[j]).0@ == k;
                assert(v[j] == w[j]);
            }
            if exists|j: int| 0 <= j < v.len() && (#[trigger] v[j]).0@ == k {
                let j = choose|j: int| 0 <= j < v.len() && (#[trigger] v[j]).0@ == k;
                if j < w.len() {
                    assert(w[j] == v[j]);
                }
            }
        }
        if unique_keys(v) {
            assert(unique_keys(w)) by {
                assert forall|i: int, j: int| 0 <= i < j < w.len() implies w[i].0@ != w[j].0@ by {
                    assert(w[i] == v[i] && w[j] == v[j]);
                }
            }
            assert forall|j: int| 0 <= j < v.len() implies forced_map(v)[(#[trigger] v[j]).0@]
                == pair_map(v[j].1@) by {
                if j < w.len() {
                    assert(w[j] == v[j]);
                    assert(v[j].0@ != v.last().0@);
                }
            }
        }
    }
}

/// Whether `k` is a key of a list of pairs.
fn has_key(v: &Vec<(String, String)>, k: &String) -> (r: bool)
    ensures
        r == pair_map(v@).contains_key(k@),
{
    proof {
        lemma_pair_map_keys(v@);
    }
    let mut i: usize = 0;
    while i < v.len()
        invariant
            i <= v.len(),
            pair_map(v@).contains_key(k@) <==> exists|j: int|
                0 <= j < v.len() && (#[trigger] v@[j]).0@ == k@,
            forall|j: int| 0 <= j < i ==> (#[trigger] v@[j]).0@ != k@,
        decreases v.len() - i,
    {
        if v[i].0 == *k {
            assert(v@[i as int].0@ == k@);
            return true;
        }
        i = i + 1;
    }
    false
}

/// Where a two-level list with unique keys gives key `k`.
fn forced_position(f: &Vec<(String, Vec<(String, String)>)>, k: &String) -> (r: Option<usize>)
    requires
        unique_keys(f@),
    ensures
        r is None <==> !forced_map(f@).contains_key(k@),
        r matches Some(i) ==> i < f@.len() && forced_map(f@)[k@] == pair_map(f@[i as int].1@),
{
    proof {
        lemma_forced_map(f@);
    }
    let mut i: usize = 0;
    while i < f.len()
        invariant
            i <= f.len(),
            unique_keys(f@),
            forall|j: int| 0 <= j < i ==> (#[trigger] f@[j]).0@ != k@,
        decreases f.len() - i,
    {
        if f[i].0 == *k {
            proof {
                lemma_forced_map(f@);
            }
            assert(f@[i as int].0@ == k@);
            return Some(i);
        }
        i = i + 1;
    }
    proof {
        lemma_forced_map(f@);
    }
    None
}

/// The entries of `inner` whose keys `keys` does not list.
fn drop_keys(inner: &Vec<(String, Vec<String>)>, keys: &Vec<(String, String)>) -> (r: Vec<
    (String, Vec<String>),
>)
    requires
        unique_keys(inner@),
    ensures
        unique_keys(r@),
        str_map(r@) == str_map(inner@).remove_keys(pair_map(keys@).dom()),
{
    let ghost gone = pair_map(keys@).dom();
    let mut out: Vec<(String, Vec<String>)> = Vec::new();
    let mut i: usize = 0;
    assert(inner@.take(0) =~= Seq::<(String, Vec<String>)>::empty());
    assert(str_map(out@) =~= str_map(inner@.take(0)).remove_keys(gone));
    while i < inner.len()
        invariant
            i <= inner.len(),
            unique_keys(inner@),
            unique_keys(out@),
            gone == pair_map(keys@).dom(),
            forall|a: int|
                0 <= a < out@.len() ==> exists|j: int|
                    0 <= j < i && (#[trigger] out@[a]).0@ == inner@[j].0@,
            str_map(out@) == str_map(inner@.take(i as int)).remove_keys(gone),
        decreases inner.len() - i,
    {
        let ghost prev = out@;
        let ghost x = inner@[i as int];
        assert(inner@.take(i + 1).drop_last() =~= inner@.take(i as int));
        assert(inner@.take(i + 1).last() == x);
        if !has_key(keys, &inner[i].0) {
            let key = inner[i].0.clone();
            let vals = inner[i].1.clone();
            out.push((key, vals));
            assert(out@.drop_last() =~= prev);
            assert(str_map(out@) =~= str_map(inner@.take(i + 1)).remove_keys(gone));
            assert forall|a: int, b: int| 0 <= a < b < out@.len() implies out@[a].0@
                != out@[b].0@ by {
                if b == out@.len() - 1 {
                    assert(out@[a] == prev[a]);
                    let j = choose|j: int| 0 <= j < i && (#[trigger] prev[a]).0@ == inner@[j].0@;
                    assert(inner@[j].0@ != inner@[i as int].0@);
                } else {
                    assert(out@[a] == prev[a] && out@[b] == prev[b]);
                }
            }
            assert forall|a: int| 0 <= a < out@.len() implies exists|j: int|
                0 <= j < i + 1 && (#[trigger] out@[a]).0@ == inner@[j].0@ by {
                if a < prev.len() {
                    assert(out@[a] == prev[a]);
                    let j = choose|j: int| 0 <= j < i && (#[trigger] prev[a]).0@ == inner@[j].0@;
                    assert(0 <= j < i + 1 && out@[a].0@ == inner@[j].0@);
                } else {
                    assert(out@[a].0@ == inner@[i as int].0@);
                }
            }
        } else {
            assert(str_map(out@) =~= str_map(inner@.take(i + 1)).remove_keys(gone));
            assert forall|a: int| 0 <= a < out@.len() implies exists|j: int|
                0 <= j < i + 1 && (#[trigger] out@[a]).0@ == inner@[j].0@ by {
                let j = choose|j: int| 0 <= j < i && (#[trigger] out@[a]).0@ == inner@[j].0@;
                assert(0 <= j < i + 1 && out@[a].0@ == inner@[j].0@);
            }
        }
        i = i + 1;
    }
    assert(inner@.take(inner@.len() as int) =~= inner@);
    out
}

/// The allowed attribute values `v`, without the pairs that `f` forces.
fn drop_forced(
    v: &Vec<(String, Vec<(String, Vec<String>)>)>,
    f: &Vec<(String, Vec<(String, String)>)>,
) -> (r: Vec<(String, Vec<(String, Vec<String>)>)>)
    requires
        nested_unique(v@),
        forced_unique(f@),
    ensures
        nested_unique(r@),
        nested_map(r@) == without_forced(nested_map(v@), forced_map(f@)),
{
    let ghost fm = forced_map(f@);
    let mut out: Vec<(String, Vec<(String, Vec<String>)>)> = Vec::new();
    let mut i: usize = 0;
    assert(v@.take(0) =~= Seq::<(String, Vec<(String, Vec<String>)>)>::empty());
    assert(nested_map(out@) =~= without_forced(nested_map(v@.take(0)), fm));
    while i < v.len()
        invariant
            i <= v.len(),
            nested_unique(v@),
            forced_unique(f@),
            fm == forced_map(f@),
            out@.len() == i,
            forall|j: int| 0 <= j < i ==> (#[trigger] out@[j]).0@ == v@[j].0@,
            forall|j: int| 0 <= j < i ==> unique_keys((#[trigger] out@[j]).1@),
            nested_map(out@) == without_forced(nested_map(v@.take(i as int)), fm),
        decreases v.len() - i,
    {
        let ghost prev = out@;
        let ghost x = v@[i as int];
        assert(v@.take(i + 1).drop_last() =~= v@.take(i as int));
        assert(v@.take(i + 1).last() == x);
        assert(unique_keys(x.1@));
        let inner = match forced_position(f, &v[i].0) {
            Some(j) => drop_keys(&v[i].1, &f[j].1),
            None => drop_keys(&v[i].1, &Vec::new()),
        };
        proof {
            let e: Seq<(String, String)> = Seq::empty();
            assert(pair_map(e) =~= Map::<Seq<char>, Seq<char>>::empty());
            assert(str_map(x.1@).remove_keys(Set::empty()) =~= str_map(x.1@));
        }
        let key = v[i].0.clone();
        let ghost inner_map = str_map(inner@);
        out.push((key, inner));
        assert(out@.drop_last() =~= prev);
        assert(nested_map(out@) == nested_map(prev).insert(x.0@, inner_map));
        assert(nested_map(out@) =~= without_forced(nested_map(v@.take(i + 1)), fm));
        assert forall|j: int| 0 <= j < i + 1 implies (#[trigger] out@[j]).0@ == v@[j].0@
            && unique_keys(out@[j].1@) by {
            if j < i {
                assert(out@[j] == prev[j]);
            }
        }
        i = i + 1;
    }
    assert(v@.take(v@.len() as int) =~= v@);
    assert forall|a: int, b: int| 0 <= a < b < out@.len() implies out@[a].0@ != out@[b].0@ by {
        assert(out@[a].0@ == v@[a].0@ && out@[b].0@ == v@[b].0@);
    }
    out
}

/// The policy `c` with the precedence of forced values made explicit.
pub fn resolve_forced(c: PolicyConfig) -> (r: PolicyConfig)
    requires
        c.wf(),
    ensures
        r.wf(),
        r@ == forced_first(c@),
{
    let tag_attribute_values = match (&c.tag_attribute_values, &c.set_tag_attribute_values) {
        (Some(v), Some(f)) => Some(drop_forced(v, f)),
        _ => None,
    };
    match tag_attribute_values {
        Some(t) => PolicyConfig { tag_attribute_values: Some(t), ..c },
        None => c,
    }
}

/// A builder configured by `c`: each setting that `c` gives is handed to the
/// engine; each that it does not give keeps the engine's default. A policy
/// settles the precedence of forced values with `resolve_forced` before it is
/// configured, since the builder borrows what it is handed.
pub fn configure<'a>(c: &'a PolicyConfig) -> (r: ammonia::Builder<'a>)
    requires
        c.wf(),
    ensures
        builder_config(r) == overlay(engine_defaults(), c@),
{
    let mut b = fresh_builder();
    if let Some(v) = &c.tags {
        set_tags(&mut b, v);
    }
    if let Some(v) = &c.clean_content_tags {
        set_clean_content_tags(&mut b, v);
    }
    if let Some(v) = &c.tag_attributes {
        set_tag_attributes(&mut b, v);
    }
    if let Some(v) = &c.tag_attribute_values {
        set_tag_attribute_values(&mut b, v);
    }
    if let Some(v) = &c.set_tag_attribute_values {
        set_forced_values(&mut b, v);
    }
    if let Some(v) = &c.generic_attributes {
        set_generic_attributes(&mut b, v);
    }
    if let Some(v) = &c.url_schemes {
        set_url_schemes(&mut b, v);
    }
    if let Some(v) = &c.link_rel {
        set_link_rel(&mut b, v);
    }
    if let Some(v) = &c.allowed_classes {
        set_allowed_classes(&mut b, v);
    }
    set_strip_comments(&mut b, c.strip_comments);
    if let Some(v) = &c.id_prefix {
        set_id_prefix(&mut b, v);
    }
    if let Some(v) = &c.generic_attribute_prefixes {
        set_generic_attribute_prefixes(&mut b, v);
    }
    b
}

} // verus!
