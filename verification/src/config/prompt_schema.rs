//! Data-driven prompt configuration: identity, ordered sections (static or
//! generated), placeholders and protocol keys.

use vstd::prelude::*;
use crate::named_map::{lookup, StringMap};
use crate::text::{clone_opt_string, opt_view, views};

verus! {

/// A prompt configuration.
#[derive(Clone, Debug)]
pub struct PromptConfig {
    pub version: String,
    pub identity: IdentitySection,
    pub sections: Vec<Section>,
    pub placeholders: Option<StringMap>,
    pub protocols: Option<Protocols>,
    pub variables: Option<StringMap>,
    /// Raw prompt text used instead of the sections when present.
    pub raw_content: Option<String>,
}

/// Who the agent is.
#[derive(Clone, Debug)]
pub struct IdentitySection {
    pub name: String,
    pub description: String,
    pub capabilities: Option<Vec<String>>,
}

/// One section of a prompt.
#[derive(Clone, Debug)]
pub struct Section {
    pub id: String,
    pub title: String,
    /// Static content (with `{variable}` placeholders).
    pub content: Option<String>,
    /// Whether the section is generated (see `generator`).
    pub dynamic: Option<bool>,
    /// Generator of a dynamic section: `tools` or `scratchpad`.
    pub generator: Option<String>,
    /// Sort key; sections without one sort as 50.
    pub priority: Option<u32>,
    pub conditions: Option<SectionConditions>,
}

/// When a section is included.
#[derive(Clone, Debug)]
pub struct SectionConditions {
    pub tools_required: Option<Vec<String>>,
    pub min_tools: Option<usize>,
}

/// Protocol descriptions.
#[derive(Clone, Debug)]
pub struct Protocols {
    pub react: Option<ReactProtocol>,
    pub json_keys: Option<JsonKeys>,
}

/// The ReAct protocol description.
#[derive(Clone, Debug)]
pub struct ReactProtocol {
    pub format: String,
    pub keys: Vec<String>,
    pub rules: Option<Vec<String>>,
    pub example: Option<String>,
}

/// The Short-Key JSON field names.
#[derive(Clone, Debug)]
pub struct JsonKeys {
    pub thought: Option<String>,
    pub action: Option<String>,
    pub input: Option<String>,
    pub final_answer: Option<String>,
}

/// The texts of an optional list of strings.
pub open spec fn opt_views(o: Option<Vec<String>>) -> Option<Seq<Seq<char>>> {
    match o {
        Some(v) => Some(views(v@)),
        None => None,
    }
}

/// A map of names to texts, by what it holds under each name.
pub open spec fn string_map_view(m: StringMap) -> Map<Seq<char>, Seq<char>> {
    Map::new(|k: Seq<char>| lookup(m@, k) is Some, |k: Seq<char>| lookup(m@, k)->0@)
}

/// An optional map of names to texts.
pub open spec fn opt_map_view(o: Option<StringMap>) -> Option<Map<Seq<char>, Seq<char>>> {
    match o {
        Some(m) => Some(string_map_view(m)),
        None => None,
    }
}

/// What a section holds.
pub struct SectionView {
    pub id: Seq<char>,
    pub title: Seq<char>,
    pub content: Option<Seq<char>>,
    pub dynamic: Option<bool>,
    pub generator: Option<Seq<char>>,
    pub priority: Option<u32>,
    /// The required tools and the minimum tool count, when there are
    /// conditions.
    pub conditions: Option<(Option<Seq<Seq<char>>>, Option<usize>)>,
}

/// What the protocol descriptions hold: the ReAct format, keys, rules and
/// example; the four Short-Key field names.
pub struct ProtocolsView {
    pub react: Option<(Seq<char>, Seq<Seq<char>>, Option<Seq<Seq<char>>>, Option<Seq<char>>)>,
    pub json_keys: Option<(Option<Seq<char>>, Option<Seq<char>>, Option<Seq<char>>, Option<Seq<char>>)>,
}

/// What a prompt configuration holds, every field by its text.
pub struct ConfigView {
    pub version: Seq<char>,
    pub name: Seq<char>,
    pub description: Seq<char>,
    pub capabilities: Option<Seq<Seq<char>>>,
    pub sections: Seq<SectionView>,
    pub placeholders: Option<Map<Seq<char>, Seq<char>>>,
    pub protocols: Option<ProtocolsView>,
    pub variables: Option<Map<Seq<char>, Seq<char>>>,
    pub raw_content: Option<Seq<char>>,
}

pub open spec fn section_view(s: Section) -> SectionView {
    SectionView {
        id: s.id@,
        title: s.title@,
        content: opt_view(s.content),
        dynamic: s.dynamic,
        generator: opt_view(s.generator),
        priority: s.priority,
        conditions: match s.conditions {
            Some(c) => Some((opt_views(c.tools_required), c.min_tools)),
            None => None,
        },
    }
}

pub open spec fn protocols_view(p: Protocols) -> ProtocolsView {
    ProtocolsView {
        react: match p.react {
            Some(r) => Some((r.format@, views(r.keys@), opt_views(r.rules), opt_view(r.example))),
            None => None,
        },
        json_keys: match p.json_keys {
            Some(j) => Some((opt_view(j.thought), opt_view(j.action), opt_view(j.input), opt_view(j.final_answer))),
            None => None,
        },
    }
}

/// The full view of a configuration.
pub open spec fn config_view(c: PromptConfig) -> ConfigView {
    ConfigView {
        version: c.version@,
        name: c.identity.name@,
        description: c.identity.description@,
        capabilities: opt_views(c.identity.capabilities),
        sections: c.sections@.map_values(|s: Section| section_view(s)),
        placeholders: opt_map_view(c.placeholders),
        protocols: match c.protocols {
            Some(p) => Some(protocols_view(p)),
            None => None,
        },
        variables: opt_map_view(c.variables),
        raw_content: opt_view(c.raw_content),
    }
}

/// A copy of an optional list of strings.
pub fn clone_opt_strings(o: &Option<Vec<String>>) -> (r: Option<Vec<String>>)
    ensures
        opt_views(r) == opt_views(*o),
{
    match o {
        Some(v) => {
            let w = v.clone();
            assert(views(w@) =~= views(v@));
            Some(w)
        },
        None => None,
    }
}

/// A copy of an optional map of names to texts.
pub fn clone_opt_map(o: &Option<StringMap>) -> (r: Option<StringMap>)
    ensures
        opt_map_view(r) == opt_map_view(*o),
        match *o {
            Some(m) => r matches Some(n) && n@ == m@,
            None => r is None,
        },
{
    match o {
        Some(m) => {
            let n = m.clone_strings();
            assert(string_map_view(n) =~= string_map_view(*m));
            Some(n)
        },
        None => None,
    }
}

impl Section {
    /// A copy of the section.
    pub fn copy(&self) -> (r: Section)
        ensures
            section_view(r) == section_view(*self),
    {
        Section {
            id: self.id.clone(),
            title: self.title.clone(),
            content: clone_opt_string(&self.content),
            dynamic: self.dynamic,
            generator: clone_opt_string(&self.generator),
            priority: self.priority,
            conditions: match &self.conditions {
                Some(c) => Some(SectionConditions {
                    tools_required: clone_opt_strings(&c.tools_required),
                    min_tools: c.min_tools,
                }),
                None => None,
            },
        }
    }
}

impl Protocols {
    /// A copy of the protocol descriptions.
    pub fn copy(&self) -> (r: Protocols)
        ensures
            protocols_view(r) == protocols_view(*self),
    {
        Protocols {
            react: match &self.react {
                Some(re) => {
                    let keys = re.keys.clone();
                    assert(views(keys@) =~= views(re.keys@));
                    Some(ReactProtocol {
                        format: re.format.clone(),
                        keys,
                        rules: clone_opt_strings(&re.rules),
                        example: clone_opt_string(&re.example),
                    })
                },
                None => None,
            },
            json_keys: match &self.json_keys {
                Some(j) => Some(JsonKeys {
                    thought: clone_opt_string(&j.thought),
                    action: clone_opt_string(&j.action),
                    input: clone_opt_string(&j.input),
                    final_answer: clone_opt_string(&j.final_answer),
                }),
                None => None,
            },
        }
    }
}

} // verus!
