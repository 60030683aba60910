use vstd::prelude::*;

use crate::config::{ConfigView, PolicyConfig, opt_str, opt_str_map, opt_strs};
use crate::engine::{forced_map, forced_unique, nested_map, nested_unique, unique_keys};
use crate::value::{
    ConfigValue, decode_forced_map, decode_list, decode_nested_map, decode_set_map, forced_map_of,
    is_forced_map, is_nested_map, is_set_map, is_text_list, keys_distinct, nested_map_of, pairs_of,
    set_map_of, text_of, text_set,
};

verus! {

/// Why a configuration value was refused.
#[derive(Debug)]
pub enum ConfigError {
    /// The configuration is not an object.
    NotAnObject,
    /// The configuration names one of its fields twice.
    DuplicateField,
    /// The named field holds a value of the wrong shape.
    WrongShape(String),
    /// The settings contradict one another in a way that the engine refuses.
    Conflict,
}

/// The human-readable description of a refusal.
pub open spec fn description(e: ConfigError) -> Seq<char> {
    match e {
        ConfigError::NotAnObject => "the configuration must be an object"@,
        ConfigError::DuplicateField => "the configuration names a field twice"@,
        ConfigError::WrongShape(f) => "invalid type for field `"@ + f@ + "` of the configuration"@,
        ConfigError::Conflict => "the configuration's settings contradict one another"@,
    }
}

impl ConfigError {
    /// Describes the refusal in words, naming the field where there is one.
    pub fn message(&self) -> (r: String)
        ensures
            r@ == description(*self),
    {
        match self {
            ConfigError::NotAnObject => String::from_str("the configuration must be an object"),
            ConfigError::DuplicateField => String::from_str(
                "the configuration names a field twice",
            ),
            ConfigError::WrongShape(f) => {
                let mut m = String::from_str("invalid type for field `");
                m.append(f.as_str());
                m.append("` of the configuration");
                m
            },
            ConfigError::Conflict => String::from_str(
                "the configuration's settings contradict one another",
            ),
        }
    }
}

/// The value given for field `name`, if the object names it.
pub open spec fn field(p: Seq<(String, ConfigValue)>, name: Seq<char>) -> Option<ConfigValue> {
    if exists|i: int| 0 <= i < p.len() && (#[trigger] p[i]).0@ == name {
        Some(p[choose|i: int| 0 <= i < p.len() && (#[trigger] p[i]).0@ == name].1)
    } else {
        None
    }
}

/// A field that is missing or null is not given.
pub open spec fn absent(f: Option<ConfigValue>) -> bool {
    f is None || f == Some(ConfigValue::Null)
}

pub open spec fn set_ok(f: Option<ConfigValue>) -> bool {
    absent(f) || is_text_list(f->0)
}

pub open spec fn set_value(f: Option<ConfigValue>) -> Option<Set<Seq<char>>> {
    if absent(f) {
        None
    } else {
        Some(text_set(f->0))
    }
}

pub open spec fn map_ok(f: Option<ConfigValue>) -> bool {
    absent(f) || is_set_map(f->0)
}

pub open spec fn map_value(f: Option<ConfigValue>) -> Option<Map<Seq<char>, Set<Seq<char>>>> {
    if absent(f) {
        None
    } else {
        Some(set_map_of(pairs_of(f->0)))
    }
}

pub open spec fn text_ok(f: Option<ConfigValue>) -> bool {
    absent(f) || f->0 is Text
}

pub open spec fn text_value(f: Option<ConfigValue>) -> Option<Seq<char>> {
    if absent(f) {
        None
    } else {
        Some(text_of(f->0))
    }
}

pub open spec fn bool_ok(f: Option<ConfigValue>) -> bool {
    absent(f) || f->0 is Bool
}

/// A flag that is not given is set.
pub open spec fn bool_value(f: Option<ConfigValue>) -> bool {
    match f {
        Some(ConfigValue::Bool(b)) => b,
        _ => true,
    }
}

/// The first field, in the order of the policy's settings, whose value has
/// the wrong shape.
pub open spec fn shape_error(p: Seq<(String, ConfigValue)>) -> Option<Seq<char>> {
    if !set_ok(field(p, "tags"@)) {
        Some("tags"@)
    } else if !set_ok(field(p, "cleanContentTags"@)) {
        Some("cleanContentTags"@)
    } else if !map_ok(field(p, "tagAttributes"@)) {
        Some("tagAttributes"@)
    } else if !(absent(field(p, "tagAttributeValues"@)) || is_nested_map(
        field(p, "tagAttributeValues"@)->0,
    )) {
        Some("tagAttributeValues"@)
    } else if !(absent(field(p, "setTagAttributeValues"@)) || is_forced_map(
        field(p, "setTagAttributeValues"@)->0,
    )) {
        Some("setTagAttributeValues"@)
    } else if !set_ok(field(p, "genericAttributes"@)) {
        Some("genericAttributes"@)
    } else if !set_ok(field(p, "urlSchemes"@)) {
        Some("urlSchemes"@)
    } else if !text_ok(field(p, "linkRel"@)) {
        Some("linkRel"@)
    } else if !map_ok(field(p, "allowedClasses"@)) {
        Some("allowedClasses"@)
    } else if !bool_ok(field(p, "stripComments"@)) {
        Some("stripComments"@)
    } else if !text_ok(field(p, "idPrefix"@)) {
        Some("idPrefix"@)
    } else if !set_ok(field(p, "genericAttributePrefixes"@)) {
        Some("genericAttributePrefixes"@)
    } else {
        None
    }
}

/// The policy that a well-shaped configuration object describes.
pub open spec fn decode_config(p: Seq<(String, ConfigValue)>) -> ConfigView {
    ConfigView {
        tags: set_value(field(p, "tags"@)),
        clean_content_tags: set_value(field(p, "cleanContentTags"@)),
        tag_attributes: map_value(field(p, "tagAttributes"@)),
        tag_attribute_values: if absent(field(p, "tagAttributeValues"@)) {
            None
        } else {
            Some(nested_map_of(pairs_of(field(p, "tagAttributeValues"@)->0)))
        },
        set_tag_attribute_values: if absent(field(p, "setTagAttributeValues"@)) {
            None
        } else {
            Some(forced_map_of(pairs_of(field(p, "setTagAttributeValues"@)->0)))
        },
        generic_attributes: set_value(field(p, "genericAttributes"@)),
        url_schemes: set_value(field(p, "urlSchemes"@)),
        link_rel: text_value(field(p, "linkRel"@)),
        allowed_classes: map_value(field(p, "allowedClasses"@)),
        strip_comments: bool_value(field(p, "stripComments"@)),
        id_prefix: text_value(field(p, "idPrefix"@)),
        generic_attribute_prefixes: set_value(field(p, "genericAttributePrefixes"@)),
    }
}

/// What a configuration value means: the policy it describes, or why it
/// was refused. Keys other than the policy's settings are ignored.
pub open spec fn parse_outcome(v: ConfigValue, r: Result<PolicyConfig, ConfigError>) -> bool {
    match v {
        ConfigValue::Object(p) => if !unique_keys(p@) {
            r matches Err(ConfigError::DuplicateField)
        } else {
            match shape_error(p@) {
                Some(n) => r matches Err(ConfigError::WrongShape(f)) && f@ == n,
                None => r matches Ok(c) && c.wf() && c@ == decode_config(p@),
            }
        },
        _ => r matches Err(ConfigError::NotAnObject),
    }
}

pub open spec fn deref_opt(f: Option<&ConfigValue>) -> Option<ConfigValue> {
    match f {
        Some(x) => Some(*x),
        None => None,
    }
}

/// The value of field `name` in an object whose keys are unique.
fn lookup<'a>(p: &'a Vec<(String, ConfigValue)>, name: &str) -> (r: Option<&'a ConfigValue>)
    requires
        unique_keys(p@),
    ensures
        deref_opt(r) == field(p@, name@),
{
    let key = String::from_str(name);
    let mut i: usize = 0;
    while i < p.len()
        invariant
            i <= p.len(),
            unique_keys(p@),
            key@ == name@,
            forall|j: int| 0 <= j < i ==> (#[trigger] p@[j]).0@ != name@,
        decreases p.len() - i,
    {
        if p[i].0 == key {
            let ghost c = choose|c: int| 0 <= c < p@.len() && (#[trigger] p@[c]).0@ == name@;
            assert(p@[i as int].0@ == name@);
            assert(c == i);
            return Some(&p[i].1);
        }
        i = i + 1;
    }
    None
}

fn set_field(f: Option<&ConfigValue>) -> (r: Result<Option<Vec<String>>, ()>)
    ensures
        r is Ok <==> set_ok(deref_opt(f)),
        r matches Ok(x) ==> opt_strs(x) == set_value(deref_opt(f)),
{
    match f {
        None => Ok(None),
        Some(ConfigValue::Null) => Ok(None),
        Some(v) => match decode_list(v) {
            Some(l) => Ok(Some(l)),
            None => Err(()),
        },
    }
}

fn map_field(f: Option<&ConfigValue>) -> (r: Result<Option<Vec<(String, Vec<String>)>>, ()>)
    ensures
        r is Ok <==> map_ok(deref_opt(f)),
        r matches Ok(x) ==> opt_str_map(x) == map_value(deref_opt(f)) && (x matches Some(l)
            ==> unique_keys(l@)),
{
    match f {
        None => Ok(None),
        Some(ConfigValue::Null) => Ok(None),
        Some(v) => match decode_set_map(v) {
            Some(l) => Ok(Some(l)),
            None => Err(()),
        },
    }
}

fn nested_field(f: Option<&ConfigValue>) -> (r: Result<
    Option<Vec<(String, Vec<(String, Vec<String>)>)>>,
    (),
>)
    ensures
        r is Ok <==> (absent(deref_opt(f)) || is_nested_map(deref_opt(f)->0)),
        r matches Ok(x) ==> match x {
            Some(l) => !absent(deref_opt(f)) && nested_unique(l@) && nested_map(l@)
                == nested_map_of(pairs_of(deref_opt(f)->0)),
            None => absent(deref_opt(f)),
        },
{
    match f {
        None => Ok(None),
        Some(ConfigValue::Null) => Ok(None),
        Some(v) => match decode_nested_map(v) {
            Some(l) => Ok(Some(l)),
            None => Err(()),
        },
    }
}

fn forced_field(f: Option<&ConfigValue>) -> (r: Result<
    Option<Vec<(String, Vec<(String, String)>)>>,
    (),
>)
    ensures
        r is Ok <==> (absent(deref_opt(f)) || is_forced_map(deref_opt(f)->0)),
        r matches Ok(x) ==> match x {
            Some(l) => !absent(deref_opt(f)) && forced_unique(l@) && forced_map(l@)
                == forced_map_of(pairs_of(deref_opt(f)->0)),
            None => absent(deref_opt(f)),
        },
{
    match f {
        None => Ok(None),
        Some(ConfigValue::Null) => Ok(None),
        Some(v) => match decode_forced_map(v) {
            Some(l) => Ok(Some(l)),
            None => Err(()),
        },
    }
}

fn text_field(f: Option<&ConfigValue>) -> (r: Result<Option<String>, ()>)
    ensures
        r is Ok <==> text_ok(deref_opt(f)),
        r matches Ok(x) ==> opt_str(x) == text_value(deref_opt(f)),
{
    match f {
        None => Ok(None),
        Some(ConfigValue::Null) => Ok(None),
        Some(ConfigValue::Text(s)) => Ok(Some(s.clone())),
        Some(_) => Err(()),
    }
}

fn bool_field(f: Option<&ConfigValue>) -> (r: Result<bool, ()>)
    ensures
        r is Ok <==> bool_ok(deref_opt(f)),
        r matches Ok(x) ==> x == bool_value(deref_opt(f)),
{
    match f {
        None => Ok(true),
        Some(ConfigValue::Null) => Ok(true),
        Some(ConfigValue::Bool(b)) => Ok(*b),
        Some(_) => Err(()),
    }
}

fn wrong_shape(name: &str) -> (r: ConfigError)
    ensures
        r matches ConfigError::WrongShape(f) && f@ == name@,
{
    ConfigError::WrongShape(String::from_str(name))
}

/// Reads a policy out of an untyped configuration value. Every setting may
/// be left out, or given as null, which leaves the engine's default in
/// force; a setting given with a value of the wrong shape is refused.
pub fn parse_config(v: &ConfigValue) -> (r: Result<PolicyConfig, ConfigError>)
    ensures
        parse_outcome(*v, r),
{
    let p = match v {
        ConfigValue::Object(p) => p,
        _ => {
            return Err(ConfigError::NotAnObject);
        },
    };
    if !keys_distinct(p) {
        return Err(ConfigError::DuplicateField);
    }
    let tags = match set_field(lookup(p, "tags")) {
        Ok(x) => x,
        Err(_) => {
            return Err(wrong_shape("tags"));
        },
    };
    let clean_content_tags = match set_field(lookup(p, "cleanContentTags")) {
        Ok(x) => x,
        Err(_) => {
            return Err(wrong_shape("cleanContentTags"));
        },
    };
    let tag_attributes = match map_field(lookup(p, "tagAttributes")) {
        Ok(x) => x,
        Err(_) => {
            return Err(wrong_shape("tagAttributes"));
        },
    };
    let tag_attribute_values = match nested_field(lookup(p, "tagAttributeValues")) {
        Ok(x) => x,
        Err(_) => {
            return Err(wrong_shape("tagAttributeValues"));
        },
    };
    let set_tag_attribute_values = match forced_field(lookup(p, "setTagAttributeValues")) {
        Ok(x) => x,
        Err(_) => {
            return Err(wrong_shape("setTagAttributeValues"));
        },
    };
    let generic_attributes = match set_field(lookup(p, "genericAttributes")) {
        Ok(x) => x,
        Err(_) => {
            return Err(wrong_shape("genericAttributes"));
        },
    };
    let url_schemes = match set_field(lookup(p, "urlSchemes")) {
        Ok(x) => x,
        Err(_) => {
            return Err(wrong_shape("urlSchemes"));
        },
    };
    let link_rel = match text_field(lookup(p, "linkRel")) {
        Ok(x) => x,
        Err(_) => {
            return Err(wrong_shape("linkRel"));
        },
    };
    let allowed_classes = match map_field(lookup(p, "allowedClasses")) {
        Ok(x) => x,
        Err(_) => {
            return Err(wrong_shape("allowedClasses"));
        },
    };
    let strip_comments = match bool_field(lookup(p, "stripComments")) {
        Ok(x) => x,
        Err(_) => {
            return Err(wrong_shape("stripComments"));
        },
    };
    let id_prefix = match text_field(lookup(p, "idPrefix")) {
        Ok(x) => x,
        Err(_) => {
            return Err(wrong_shape("idPrefix"));
        },
    };
    let generic_attribute_prefixes = match set_field(lookup(p, "genericAttributePrefixes")) {
        Ok(x) => x,
        Err(_) => {
            return Err(wrong_shape("genericAttributePrefixes"));
        },
    };
    Ok(
        PolicyConfig {
            tags,
            clean_content_tags,
            tag_attributes,
            tag_attribute_values,
            set_tag_attribute_values,
            generic_attributes,
            url_schemes,
            link_rel,
            allowed_classes,
            strip_comments,
            id_prefix,
            generic_attribute_prefixes,
        },
    )
}

} // verus!
