use vstd::prelude::*;

use crate::config::ConfigView;
use crate::engine::{engine_defaults, unique_keys};
use crate::policy::{forced_first, without_forced};
use crate::sanitize::effective;
use crate::validate::{decode_config, field, shape_error};
use crate::value::{ConfigValue, text_of};

verus! {

/// The tags and attributes that a policy allows are exactly those that the
/// engine cleans with: given lists replace the engine's, and nothing is
/// added to them or dropped from them.
pub proof fn lemma_allow_lists_reach_engine(c: ConfigView)
    ensures
        c.tags matches Some(t) ==> effective(c).tags == t,
        c.tag_attributes matches Some(a) ==> effective(c).tag_attributes == a,
        c.generic_attributes matches Some(g) ==> effective(c).generic_attributes == g,
{
}

/// Forced attribute values take precedence over allowed attribute values:
/// the forced values reach the engine unchanged, and the allowed values that
/// reach it keep no tag and attribute pair that has a forced value.
pub proof fn lemma_forced_values_take_precedence(c: ConfigView)
    ensures
        c.set_tag_attribute_values matches Some(f) ==> effective(forced_first(c)).set_tag_attribute_values
            == f,
        c.set_tag_attribute_values matches Some(f) ==> forall|t: Seq<char>, a: Seq<char>|
            #[trigger] f.contains_key(t) && #[trigger] f[t].contains_key(a)
                && effective(forced_first(c)).tag_attribute_values.contains_key(t)
                ==> !effective(forced_first(c)).tag_attribute_values[t].contains_key(a),
        c.tag_attribute_values matches Some(v) ==> effective(forced_first(c)).tag_attribute_values
            == without_forced(v, effective(c).set_tag_attribute_values),
{
    if c.tag_attribute_values is None && c.set_tag_attribute_values is Some {
        assert(effective(forced_first(c)).tag_attribute_values =~= Map::empty());
    }
    if let Some(v) = c.tag_attribute_values {
        if c.set_tag_attribute_values is None {
            assert(without_forced(v, Map::empty()) =~= v);
        }
    }
}

/// A URL scheme list given empty allows no scheme at all; one that is left
/// out keeps the engine's default schemes.
pub proof fn lemma_url_scheme_presence(p: Seq<(String, ConfigValue)>)
    requires
        unique_keys(p),
        shape_error(p) is None,
    ensures
        field(p, "urlSchemes"@) matches Some(ConfigValue::List(items)) && items@.len() == 0
            ==> effective(decode_config(p)).url_schemes == Set::<Seq<char>>::empty(),
        field(p, "urlSchemes"@) is None ==> effective(decode_config(p)).url_schemes
            == engine_defaults().url_schemes,
{
    if let Some(ConfigValue::List(items)) = field(p, "urlSchemes"@) {
        let m = items@.map_values(|x: ConfigValue| text_of(x));
        if items@.len() == 0 {
            assert(m =~= Seq::<Seq<char>>::empty());
            assert(m.to_set() =~= Set::<Seq<char>>::empty());
        }
    }
}

} // verus!

verus! {

/// Leaving the URL scheme list out cleans exactly as giving the engine's
/// default schemes does: the two policies hand the engine the same settings.
pub proof fn lemma_absent_url_schemes_keep_defaults(c: ConfigView)
    requires
        c.url_schemes is None,
    ensures
        effective(c) == effective(
            ConfigView { url_schemes: Some(engine_defaults().url_schemes), ..c },
        ),
{
}

} // verus!
