use vstd::prelude::*;

use crate::config::{ConfigView, PolicyConfig, overlay};
use crate::engine::{
    EngineConfig, accepts, at_most_one_forced, determines_output, default_clean, engine_defaults, fresh_builder, run_builder, sanitized,
    set_generic_attributes, set_tag_attributes, set_tags, strs, str_map, unique_keys,
};
use crate::policy::{check_accepts, configure, forced_first, resolve_forced};
use crate::text::{decode_text, unescape};
use crate::validate::{ConfigError, decode_config, parse_config, shape_error};
use crate::value::ConfigValue;

verus! {

/// The engine settings under which a policy cleans: what it gives, over the
/// engine's defaults.
pub open spec fn effective(c: ConfigView) -> EngineConfig {
    overlay(engine_defaults(), c)
}

/// The engine settings under which text is cleaned to its content alone: the
/// defaults, with no tag and no attribute allowed.
pub open spec fn text_only() -> EngineConfig {
    EngineConfig {
        tags: Set::empty(),
        tag_attributes: Map::empty(),
        generic_attributes: Set::empty(),
        ..engine_defaults()
    }
}

/// Cleans `src` under the engine's default policy, keeping allowed markup.
pub fn clean(src: &str) -> (r: String)
    ensures
        r@ == sanitized(engine_defaults(), src@),
{
    default_clean(src)
}

/// Cleans `src` under the engine's default policy with every tag removed,
/// which leaves the text content, and returns that text decoded.
pub fn clean_text(src: &str) -> (r: String)
    ensures
        r@ == unescape(sanitized(text_only(), src@)),
{
    let none: Vec<String> = Vec::new();
    let no_attributes: Vec<(String, Vec<String>)> = Vec::new();
    let mut b = fresh_builder();
    set_tags(&mut b, &none);
    set_tag_attributes(&mut b, &no_attributes);
    set_generic_attributes(&mut b, &none);
    assert(strs(none@) =~= Set::empty());
    assert(str_map(no_attributes@) =~= Map::empty());
    assert(determines_output(text_only()));
    let cleaned = run_builder(&b, src);
    decode_text(cleaned.as_str())
}

/// What the constructor makes of a configuration value: the refusals of
/// `parse_outcome`, then a refusal of settings that the engine would not
/// accept; a policy that is made lets forced values take precedence over
/// allowed values (`forced_first`).
pub open spec fn new_outcome(raw: ConfigValue, r: Result<AmmoniaBuilder, ConfigError>) -> bool {
    match raw {
        ConfigValue::Object(p) => if !unique_keys(p@) {
            r matches Err(ConfigError::DuplicateField)
        } else {
            match shape_error(p@) {
                Some(n) => r matches Err(ConfigError::WrongShape(f)) && f@ == n,
                None => if accepts(effective(forced_first(decode_config(p@)))) {
                    r matches Ok(b) && b@ == forced_first(decode_config(p@))
                } else {
                    r matches Err(ConfigError::Conflict)
                },
            }
        },
        _ => r matches Err(ConfigError::NotAnObject),
    }
}

/// A sanitization policy, checked once and reusable for any number of cleans.
pub struct AmmoniaBuilder {
    config: PolicyConfig,
}

impl View for AmmoniaBuilder {
    type V = ConfigView;

    closed spec fn view(&self) -> ConfigView {
        self.config@
    }
}

impl AmmoniaBuilder {
    #[verifier::type_invariant]
    spec fn inv(self) -> bool {
        self.config.wf() && accepts(effective(self.config@))
    }

    /// Builds a policy from an untyped configuration value.
    pub fn new(raw: &ConfigValue) -> (r: Result<AmmoniaBuilder, ConfigError>)
        ensures
            new_outcome(*raw, r),
    {
        let config = match parse_config(raw) {
            Ok(c) => c,
            Err(e) => {
                return Err(e);
            },
        };
        let config = resolve_forced(config);
        let accepted = {
            let b = configure(&config);
            check_accepts(&b)
        };
        if accepted {
            Ok(AmmoniaBuilder { config })
        } else {
            Err(ConfigError::Conflict)
        }
    }

    /// Cleans `src` under this policy. Where a tag has two or more forced
    /// attribute values, the engine may add them in any order, so only the
    /// output with at most one forced value per tag is named.
    pub fn clean(&self, src: &str) -> (r: String)
        ensures
            at_most_one_forced(effective(self@)) ==> r@ == sanitized(effective(self@), src@),
    {
        proof {
            use_type_invariant(self);
        }
        let b = configure(&self.config);
        run_builder(&b, src)
    }
}

} // verus!
