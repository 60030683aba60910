use vstd::prelude::*;

use crate::engine::{
    EngineConfig, forced_map, forced_unique, nested_map, nested_unique, str_map, strs,
    unique_keys,
};

verus! {

/// An allow-list policy as it was configured. `None` marks a setting that was
/// not given, which leaves the engine's own default in force; an empty list
/// that was given allows nothing.
pub struct PolicyConfig {
    pub tags: Option<Vec<String>>,
    pub clean_content_tags: Option<Vec<String>>,
    pub tag_attributes: Option<Vec<(String, Vec<String>)>>,
    pub tag_attribute_values: Option<Vec<(String, Vec<(String, Vec<String>)>)>>,
    pub set_tag_attribute_values: Option<Vec<(String, Vec<(String, String)>)>>,
    pub generic_attributes: Option<Vec<String>>,
    pub url_schemes: Option<Vec<String>>,
    pub link_rel: Option<String>,
    pub allowed_classes: Option<Vec<(String, Vec<String>)>>,
    pub strip_comments: bool,
    pub id_prefix: Option<String>,
    pub generic_attribute_prefixes: Option<Vec<String>>,
}

/// The meaning of a `PolicyConfig`: sets and maps, each present or absent.
pub struct ConfigView {
    pub tags: Option<Set<Seq<char>>>,
    pub clean_content_tags: Option<Set<Seq<char>>>,
    pub tag_attributes: Option<Map<Seq<char>, Set<Seq<char>>>>,
    pub tag_attribute_values: Option<Map<Seq<char>, Map<Seq<char>, Set<Seq<char>>>>>,
    pub set_tag_attribute_values: Option<Map<Seq<char>, Map<Seq<char>, Seq<char>>>>,
    pub generic_attributes: Option<Set<Seq<char>>>,
    pub url_schemes: Option<Set<Seq<char>>>,
    pub link_rel: Option<Seq<char>>,
    pub allowed_classes: Option<Map<Seq<char>, Set<Seq<char>>>>,
    pub strip_comments: bool,
    pub id_prefix: Option<Seq<char>>,
    pub generic_attribute_prefixes: Option<Set<Seq<char>>>,
}

pub open spec fn opt_strs(v: Option<Vec<String>>) -> Option<Set<Seq<char>>> {
    match v {
        Some(l) => Some(strs(l@)),
        None => None,
    }
}

pub open spec fn opt_str_map(v: Option<Vec<(String, Vec<String>)>>) -> Option<
    Map<Seq<char>, Set<Seq<char>>>,
> {
    match v {
        Some(l) => Some(str_map(l@)),
        None => None,
    }
}

pub open spec fn opt_str(v: Option<String>) -> Option<Seq<char>> {
    match v {
        Some(s) => Some(s@),
        None => None,
    }
}

impl View for PolicyConfig {
    type V = ConfigView;

    open spec fn view(&self) -> ConfigView {
        ConfigView {
            tags: opt_strs(self.tags),
            clean_content_tags: opt_strs(self.clean_content_tags),
            tag_attributes: opt_str_map(self.tag_attributes),
            tag_attribute_values: match self.tag_attribute_values {
                Some(l) => Some(nested_map(l@)),
                None => None,
            },
            set_tag_attribute_values: match self.set_tag_attribute_values {
                Some(l) => Some(forced_map(l@)),
                None => None,
            },
            generic_attributes: opt_strs(self.generic_attributes),
            url_schemes: opt_strs(self.url_schemes),
            link_rel: opt_str(self.link_rel),
            allowed_classes: opt_str_map(self.allowed_classes),
            strip_comments: self.strip_comments,
            id_prefix: opt_str(self.id_prefix),
            generic_attribute_prefixes: opt_strs(self.generic_attribute_prefixes),
        }
    }
}

impl PolicyConfig {
    /// Every map lists each key once, at each level.
    pub open spec fn wf(&self) -> bool {
        &&& (self.tag_attributes matches Some(l) ==> unique_keys(l@))
        &&& (self.tag_attribute_values matches Some(l) ==> nested_unique(l@))
        &&& (self.set_tag_attribute_values matches Some(l) ==> forced_unique(l@))
        &&& (self.allowed_classes matches Some(l) ==> unique_keys(l@))
    }
}

/// The engine settings that result from applying `c` over `d`: a setting that
/// `c` gives replaces that of `d`, one that it does not give keeps `d`'s.
pub open spec fn overlay(d: EngineConfig, c: ConfigView) -> EngineConfig {
    EngineConfig {
        tags: match c.tags {
            Some(x) => x,
            None => d.tags,
        },
        clean_content_tags: match c.clean_content_tags {
            Some(x) => x,
            None => d.clean_content_tags,
        },
        tag_attributes: match c.tag_attributes {
            Some(x) => x,
            None => d.tag_attributes,
        },
        tag_attribute_values: match c.tag_attribute_values {
            Some(x) => x,
            None => d.tag_attribute_values,
        },
        set_tag_attribute_values: match c.set_tag_attribute_values {
            Some(x) => x,
            None => d.set_tag_attribute_values,
        },
        generic_attributes: match c.generic_attributes {
            Some(x) => x,
            None => d.generic_attributes,
        },
        url_schemes: match c.url_schemes {
            Some(x) => x,
            None => d.url_schemes,
        },
        link_rel: match c.link_rel {
            Some(x) => Some(x),
            None => d.link_rel,
        },
        allowed_classes: match c.allowed_classes {
            Some(x) => x,
            None => d.allowed_classes,
        },
        strip_comments: c.strip_comments,
        id_prefix: match c.id_prefix {
            Some(x) => Some(x),
            None => d.id_prefix,
        },
        generic_attribute_prefixes: match c.generic_attribute_prefixes {
            Some(x) => Some(x),
            None => d.generic_attribute_prefixes,
        },
        url_relative_pass_through: d.url_relative_pass_through,
        has_attribute_filter: d.has_attribute_filter,
    }
}

} // verus!
