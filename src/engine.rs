use vstd::prelude::*;

verus! {

#[verifier::external_type_specification]
#[verifier::external_body]
pub struct ExBuilder<'a>(ammonia::Builder<'a>);

/// The settings of a sanitizer engine builder, as sets and maps of strings.
pub struct EngineConfig {
    pub tags: Set<Seq<char>>,
    pub clean_content_tags: Set<Seq<char>>,
    pub tag_attributes: Map<Seq<char>, Set<Seq<char>>>,
    pub tag_attribute_values: Map<Seq<char>, Map<Seq<char>, Set<Seq<char>>>>,
    pub set_tag_attribute_values: Map<Seq<char>, Map<Seq<char>, Seq<char>>>,
    pub generic_attributes: Set<Seq<char>>,
    pub url_schemes: Set<Seq<char>>,
    pub link_rel: Option<Seq<char>>,
    pub allowed_classes: Map<Seq<char>, Set<Seq<char>>>,
    pub strip_comments: bool,
    pub id_prefix: Option<Seq<char>>,
    pub generic_attribute_prefixes: Option<Set<Seq<char>>>,
    /// Relative URLs are passed through unchanged.
    pub url_relative_pass_through: bool,
    /// An attribute filter is installed.
    pub has_attribute_filter: bool,
}

/// What a builder is configured with.
pub uninterp spec fn builder_config(b: ammonia::Builder) -> EngineConfig;

/// The text that the engine makes of `src` under the settings `config`, for
/// settings that `determines_output` holds of.
pub uninterp spec fn sanitized(config: EngineConfig, src: Seq<char>) -> Seq<char>;

/// The set of strings that a list holds.
pub open spec fn strs(v: Seq<String>) -> Set<Seq<char>> {
    v.map_values(|s: String| s@).to_set()
}

/// No key occurs twice in a list of pairs.
pub open spec fn unique_keys<V>(v: Seq<(String, V)>) -> bool {
    forall|i: int, j: int| 0 <= i < j < v.len() ==> v[i].0@ != v[j].0@
}

/// The map from each key to the set of strings listed beside it.
pub open spec fn str_map(v: Seq<(String, Vec<String>)>) -> Map<Seq<char>, Set<Seq<char>>>
    decreases v.len(),
{
    if v.len() == 0 {
        Map::empty()
    } else {
        str_map(v.drop_last()).insert(v.last().0@, strs(v.last().1@))
    }
}

/// The map from each key to the string beside it.
pub open spec fn pair_map(v: Seq<(String, String)>) -> Map<Seq<char>, Seq<char>>
    decreases v.len(),
{
    if v.len() == 0 {
        Map::empty()
    } else {
        pair_map(v.drop_last()).insert(v.last().0@, v.last().1@)
    }
}

/// A two-level map: key, then inner key, then a set of strings.
pub open spec fn nested_map(v: Seq<(String, Vec<(String, Vec<String>)>)>) -> Map<
    Seq<char>,
    Map<Seq<char>, Set<Seq<char>>>,
>
    decreases v.len(),
{
    if v.len() == 0 {
        Map::empty()
    } else {
        nested_map(v.drop_last()).insert(v.last().0@, str_map(v.last().1@))
    }
}

/// A two-level map: key, then inner key, then one string.
pub open spec fn forced_map(v: Seq<(String, Vec<(String, String)>)>) -> Map<
    Seq<char>,
    Map<Seq<char>, Seq<char>>,
>
    decreases v.len(),
{
    if v.len() == 0 {
        Map::empty()
    } else {
        forced_map(v.drop_last()).insert(v.last().0@, pair_map(v.last().1@))
    }
}

pub open spec fn nested_unique(v: Seq<(String, Vec<(String, Vec<String>)>)>) -> bool {
    unique_keys(v) && forall|i: int| 0 <= i < v.len() ==> unique_keys(#[trigger] v[i].1@)
}

pub open spec fn forced_unique(v: Seq<(String, Vec<(String, String)>)>) -> bool {
    unique_keys(v) && forall|i: int| 0 <= i < v.len() ==> unique_keys(#[trigger] v[i].1@)
}

/// The settings that a fresh builder starts with.
pub open spec fn engine_defaults() -> EngineConfig {
    EngineConfig {
        tags: set![
            "a"@, "abbr"@, "acronym"@, "area"@, "article"@, "aside"@, "b"@, "bdi"@,
            "bdo"@, "blockquote"@, "br"@, "caption"@, "center"@, "cite"@, "code"@,
            "col"@, "colgroup"@, "data"@, "dd"@, "del"@, "details"@, "dfn"@, "div"@,
            "dl"@, "dt"@, "em"@, "figcaption"@, "figure"@, "footer"@, "h1"@, "h2"@,
            "h3"@, "h4"@, "h5"@, "h6"@, "header"@, "hgroup"@, "hr"@, "i"@, "img"@,
            "ins"@, "kbd"@, "li"@, "map"@, "mark"@, "nav"@, "ol"@, "p"@, "pre"@,
            "q"@, "rp"@, "rt"@, "rtc"@, "ruby"@, "s"@, "samp"@, "small"@, "span"@,
            "strike"@, "strong"@, "sub"@, "summary"@, "sup"@, "table"@, "tbody"@,
            "td"@, "th"@, "thead"@, "time"@, "tr"@, "tt"@, "u"@, "ul"@, "var"@, "wbr"@
        ],
        clean_content_tags: set!["script"@, "style"@],
        tag_attributes: map![
            "a"@ => set!["href"@, "hreflang"@],
            "bdo"@ => set!["dir"@],
            "blockquote"@ => set!["cite"@],
            "col"@ => set!["align"@, "char"@, "charoff"@, "span"@],
            "colgroup"@ => set!["align"@, "char"@, "charoff"@, "span"@],
            "del"@ => set!["cite"@, "datetime"@],
            "hr"@ => set!["align"@, "size"@, "width"@],
            "img"@ => set!["align"@, "alt"@, "height"@, "src"@, "width"@],
            "ins"@ => set!["cite"@, "datetime"@],
            "ol"@ => set!["start"@],
            "q"@ => set!["cite"@],
            "table"@ => set!["align"@, "char"@, "charoff"@, "summary"@],
            "tbody"@ => set!["align"@, "char"@, "charoff"@],
            "td"@ => set!["align"@, "char"@, "charoff"@, "colspan"@, "headers"@, "rowspan"@],
            "tfoot"@ => set!["align"@, "char"@, "charoff"@],
            "th"@ => set![
                "align"@, "char"@, "charoff"@, "colspan"@, "headers"@, "rowspan"@, "scope"@
            ],
            "thead"@ => set!["align"@, "char"@, "charoff"@],
            "tr"@ => set!["align"@, "char"@, "charoff"@]
        ],
        tag_attribute_values: Map::empty(),
        set_tag_attribute_values: Map::empty(),
        generic_attributes: set!["lang"@, "title"@],
        url_schemes: set![
            "bitcoin"@, "ftp"@, "ftps"@, "geo"@, "http"@, "https"@, "im"@, "irc"@,
            "ircs"@, "magnet"@, "mailto"@, "mms"@, "mx"@, "news"@, "nntp"@,
            "openpgp4fpr"@, "sip"@, "sms"@, "smsto"@, "ssh"@, "tel"@, "url"@,
            "webcal"@, "wtai"@, "xmpp"@
        ],
        link_rel: Some("noopener noreferrer"@),
        allowed_classes: Map::empty(),
        strip_comments: true,
        id_prefix: None,
        generic_attribute_prefixes: None,
        url_relative_pass_through: true,
        has_attribute_filter: false,
    }
}

/// At most one attribute value is forced on each tag.
pub open spec fn at_most_one_forced(c: EngineConfig) -> bool {
    forall|t: Seq<char>, a: Seq<char>, b: Seq<char>|
        #![trigger c.set_tag_attribute_values[t].contains_key(a), c.set_tag_attribute_values[t].contains_key(b)]
        c.set_tag_attribute_values.contains_key(t) && c.set_tag_attribute_values[t].contains_key(a)
            && c.set_tag_attribute_values[t].contains_key(b) ==> a == b
}

/// Settings under which the engine's output depends on the input alone. The
/// engine adds forced attributes that the input lacks in the order in which it
/// walks a hash map, which varies from builder to builder; with one forced
/// attribute per tag there is no order to vary.
pub open spec fn determines_output(c: EngineConfig) -> bool {
    c.url_relative_pass_through && !c.has_attribute_filter && at_most_one_forced(c)
}

/// The engine cleans under `c` without giving up: the checks that it makes
/// before it cleans all pass.
pub open spec fn accepts(c: EngineConfig) -> bool {
    &&& forall|t: Seq<char>| #[trigger]
        c.clean_content_tags.contains(t) ==> !c.tags.contains(t)
            && !c.tag_attributes.contains_key(t)
    &&& c.link_rel is Some ==> !c.generic_attributes.contains("rel"@) && !(
    c.tag_attributes.contains_key("a"@) && c.tag_attributes["a"@].contains("rel"@))
    &&& forall|t: Seq<char>| #[trigger]
        c.allowed_classes.contains_key(t) ==> !c.generic_attributes.contains("class"@) && !(
        c.tag_attributes.contains_key(t) && c.tag_attributes[t].contains("class"@))
    &&& !c.tags.contains("animate"@)
    &&& !c.tags.contains("animateTransform"@)
    &&& !c.tags.contains("animateMotion"@)
    &&& !c.tags.contains("animateColor"@)
    &&& !c.tags.contains("set"@)
}

/// Relies on ammonia::Builder::new: a builder with the default settings.
#[verifier::external_body]
pub(crate) fn fresh_builder<'a>() -> (r: ammonia::Builder<'a>)
    ensures
        builder_config(r) == engine_defaults(),
{
    ammonia::Builder::new()
}

/// Relies on ammonia::Builder::tags: it replaces the allowed tags.
#[verifier::external_body]
pub(crate) fn set_tags<'a>(b: &mut ammonia::Builder<'a>, v: &'a Vec<String>)
    ensures
        builder_config(*final(b)) == (EngineConfig { tags: strs(v@), ..builder_config(*old(b)) }),
{
    b.tags(v.iter().map(|s| s.as_str()).collect());
}

/// Relies on ammonia::Builder::clean_content_tags: it replaces the tags whose
/// content is dropped.
#[verifier::external_body]
pub(crate) fn set_clean_content_tags<'a>(b: &mut ammonia::Builder<'a>, v: &'a Vec<String>)
    ensures
        builder_config(*final(b)) == (EngineConfig {
            clean_content_tags: strs(v@),
            ..builder_config(*old(b))
        }),
{
    b.clean_content_tags(v.iter().map(|s| s.as_str()).collect());
}

/// Relies on ammonia::Builder::tag_attributes: it replaces the attributes
/// allowed per tag.
#[verifier::external_body]
pub(crate) fn set_tag_attributes<'a>(
    b: &mut ammonia::Builder<'a>,
    v: &'a Vec<(String, Vec<String>)>,
)
    requires
        unique_keys(v@),
    ensures
        builder_config(*final(b)) == (EngineConfig {
            tag_attributes: str_map(v@),
            ..builder_config(*old(b))
        }),
{
    b.tag_attributes(
        v.iter().map(|(t, a)| (t.as_str(), a.iter().map(|s| s.as_str()).collect())).collect(),
    );
}

/// Relies on ammonia::Builder::tag_attribute_values: it replaces the values
/// allowed per tag and attribute.
#[verifier::external_body]
pub(crate) fn set_tag_attribute_values<'a>(
    b: &mut ammonia::Builder<'a>,
    v: &'a Vec<(String, Vec<(String, Vec<String>)>)>,
)
    requires
        nested_unique(v@),
    ensures
        builder_config(*final(b)) == (EngineConfig {
            tag_attribute_values: nested_map(v@),
            ..builder_config(*old(b))
        }),
{
    b.tag_attribute_values(
        v.iter().map(
            |(t, m)|
                (
                    t.as_str(),
                    m.iter().map(
                        |(a, vs)| (a.as_str(), vs.iter().map(|s| s.as_str()).collect()),
                    ).collect(),
                ),
        ).collect(),
    );
}

/// Relies on ammonia::Builder::set_tag_attribute_values: it replaces the
/// values forced per tag and attribute.
#[verifier::external_body]
pub(crate) fn set_forced_values<'a>(
    b: &mut ammonia::Builder<'a>,
    v: &'a Vec<(String, Vec<(String, String)>)>,
)
    requires
        forced_unique(v@),
    ensures
        builder_config(*final(b)) == (EngineConfig {
            set_tag_attribute_values: forced_map(v@),
            ..builder_config(*old(b))
        }),
{
    b.set_tag_attribute_values(
        v.iter().map(
            |(t, m)| (t.as_str(), m.iter().map(|(a, x)| (a.as_str(), x.as_str())).collect()),
        ).collect(),
    );
}

/// Relies on ammonia::Builder::generic_attributes: it replaces the attributes
/// allowed on every tag.
#[verifier::external_body]
pub(crate) fn set_generic_attributes<'a>(b: &mut ammonia::Builder<'a>, v: &'a Vec<String>)
    ensures
        builder_config(*final(b)) == (EngineConfig {
            generic_attributes: strs(v@),
            ..builder_config(*old(b))
        }),
{
    b.generic_attributes(v.iter().map(|s| s.as_str()).collect());
}

/// Relies on ammonia::Builder::url_schemes: it replaces the allowed URL schemes.
#[verifier::external_body]
pub(crate) fn set_url_schemes<'a>(b: &mut ammonia::Builder<'a>, v: &'a Vec<String>)
    ensures
        builder_config(*final(b)) == (EngineConfig {
            url_schemes: strs(v@),
            ..builder_config(*old(b))
        }),
{
    b.url_schemes(v.iter().map(|s| s.as_str()).collect());
}

/// Relies on ammonia::Builder::link_rel: it sets the `rel` value put on links.
#[verifier::external_body]
pub(crate) fn set_link_rel<'a>(b: &mut ammonia::Builder<'a>, v: &'a String)
    ensures
        builder_config(*final(b)) == (EngineConfig {
            link_rel: Some(v@),
            ..builder_config(*old(b))
        }),
{
    b.link_rel(Some(v.as_str()));
}

/// Relies on ammonia::Builder::allowed_classes: it replaces the classes
/// allowed per tag.
#[verifier::external_body]
pub(crate) fn set_allowed_classes<'a>(
    b: &mut ammonia::Builder<'a>,
    v: &'a Vec<(String, Vec<String>)>,
)
    requires
        unique_keys(v@),
    ensures
        builder_config(*final(b)) == (EngineConfig {
            allowed_classes: str_map(v@),
            ..builder_config(*old(b))
        }),
{
    b.allowed_classes(
        v.iter().map(|(t, c)| (t.as_str(), c.iter().map(|s| s.as_str()).collect())).collect(),
    );
}

/// Relies on ammonia::Builder::strip_comments: it sets whether comments go.
#[verifier::external_body]
pub(crate) fn set_strip_comments(b: &mut ammonia::Builder, v: bool)
    ensures
        builder_config(*final(b)) == (EngineConfig {
            strip_comments: v,
            ..builder_config(*old(b))
        }),
{
    b.strip_comments(v);
}

/// Relies on ammonia::Builder::id_prefix: it sets the prefix put on `id` values.
#[verifier::external_body]
pub(crate) fn set_id_prefix<'a>(b: &mut ammonia::Builder<'a>, v: &'a String)
    ensures
        builder_config(*final(b)) == (EngineConfig {
            id_prefix: Some(v@),
            ..builder_config(*old(b))
        }),
{
    b.id_prefix(Some(v.as_str()));
}

/// Relies on ammonia::Builder::generic_attribute_prefixes: it sets the
/// attribute-name prefixes allowed on every tag.
#[verifier::external_body]
pub(crate) fn set_generic_attribute_prefixes<'a>(
    b: &mut ammonia::Builder<'a>,
    v: &'a Vec<String>,
)
    ensures
        builder_config(*final(b)) == (EngineConfig {
            generic_attribute_prefixes: Some(strs(v@)),
            ..builder_config(*old(b))
        }),
{
    b.generic_attribute_prefixes(v.iter().map(|s| s.as_str()).collect());
}

/// Relies on ammonia::Builder::clone_tags: a copy of the allowed tags.
#[verifier::external_body]
pub(crate) fn get_tags(b: &ammonia::Builder) -> (r: Vec<String>)
    ensures
        strs(r@) == builder_config(*b).tags,
{
    b.clone_tags().into_iter().map(|s| s.to_string()).collect()
}

/// Relies on ammonia::Builder::clone_clean_content_tags: a copy of the tags
/// whose content is dropped.
#[verifier::external_body]
pub(crate) fn get_clean_content_tags(b: &ammonia::Builder) -> (r: Vec<String>)
    ensures
        strs(r@) == builder_config(*b).clean_content_tags,
{
    b.clone_clean_content_tags().into_iter().map(|s| s.to_string()).collect()
}

/// Relies on ammonia::Builder::clone_generic_attributes: a copy of the
/// attributes allowed on every tag.
#[verifier::external_body]
pub(crate) fn get_generic_attributes(b: &ammonia::Builder) -> (r: Vec<String>)
    ensures
        strs(r@) == builder_config(*b).generic_attributes,
{
    b.clone_generic_attributes().into_iter().map(|s| s.to_string()).collect()
}

/// Relies on ammonia::Builder::clone_tag_attributes: a copy of the attributes
/// allowed per tag, one entry per tag.
#[verifier::external_body]
pub(crate) fn get_tag_attributes(b: &ammonia::Builder) -> (r: Vec<(String, Vec<String>)>)
    ensures
        unique_keys(r@),
        str_map(r@) == builder_config(*b).tag_attributes,
{
    b.clone_tag_attributes().into_iter().map(
        |(t, a)| (t.to_string(), a.into_iter().map(|s| s.to_string()).collect()),
    ).collect()
}

/// Relies on ammonia::Builder::clone_allowed_classes: a copy of the classes
/// allowed per tag, one entry per tag.
#[verifier::external_body]
pub(crate) fn get_allowed_classes(b: &ammonia::Builder) -> (r: Vec<(String, Vec<String>)>)
    ensures
        unique_keys(r@),
        str_map(r@) == builder_config(*b).allowed_classes,
{
    b.clone_allowed_classes().into_iter().map(
        |(t, c)| (t.to_string(), c.into_iter().map(|s| s.to_string()).collect()),
    ).collect()
}

/// Relies on ammonia::Builder::get_link_rel: the `rel` value put on links, if
/// one is set.
#[verifier::external_body]
pub(crate) fn get_link_rel(b: &ammonia::Builder) -> (r: Option<String>)
    ensures
        r is None <==> builder_config(*b).link_rel is None,
        r matches Some(s) ==> builder_config(*b).link_rel == Some(s@),
{
    b.get_link_rel().map(|s| s.to_string())
}

/// Relies on ammonia::Builder::clean and Document::to_string: the cleaned
/// text. The engine gives up on settings that it does not accept.
#[verifier::external_body]
pub(crate) fn run_builder(b: &ammonia::Builder, src: &str) -> (r: String)
    requires
        accepts(builder_config(*b)),
    ensures
        determines_output(builder_config(*b)) ==> r@ == sanitized(builder_config(*b), src@),
{
    b.clean(src).to_string()
}

/// Relies on ammonia::clean: it cleans with a builder of default settings,
/// under which no attribute is forced.
#[verifier::external_body]
pub(crate) fn default_clean(src: &str) -> (r: String)
    ensures
        r@ == sanitized(engine_defaults(), src@),
{
    ammonia::clean(src)
}

} // verus!
