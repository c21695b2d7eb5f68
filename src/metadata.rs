//! The front-matter metadata: a mapping from keys to the shapes of value
//! that documents read (a string, a sequence, anything else), parsed from
//! YAML, and the projection of its fields to plain strings and lists.
use std::collections::BTreeMap;
use vstd::prelude::*;

verus! {

/// One metadata value, reduced to the shapes a document reads.
#[derive(Debug, Clone, PartialEq)]
pub enum MetaValue {
    /// A YAML string.
    Text(String),
    /// A YAML sequence: each element that is a string, or `None` for any
    /// other element.
    List(Vec<Option<String>>),
    /// Any other YAML value (a number, a boolean, null, a mapping, ...).
    Other,
}

/// The mathematical form of a [`MetaValue`].
pub enum MetaValueView {
    Text(Seq<char>),
    List(Seq<Option<Seq<char>>>),
    Other,
}

pub open spec fn opt_str_view(o: Option<String>) -> Option<Seq<char>> {
    match o {
        Some(s) => Some(s@),
        None => None,
    }
}

impl View for MetaValue {
    type V = MetaValueView;

    open spec fn view(&self) -> MetaValueView {
        match self {
            MetaValue::Text(s) => MetaValueView::Text(s@),
            MetaValue::List(items) => MetaValueView::List(items@.map_values(|o: Option<String>| opt_str_view(o))),
            MetaValue::Other => MetaValueView::Other,
        }
    }
}

/// A metadata mapping in mathematical form: key/value pairs.
pub type Entries = Seq<(Seq<char>, MetaValueView)>;

pub open spec fn entries_view(v: Seq<(String, MetaValue)>) -> Entries {
    v.map_values(|e: (String, MetaValue)| (e.0@, e.1@))
}

/// No key occurs twice.
pub open spec fn keys_distinct(e: Entries) -> bool {
    forall|i: int, j: int| 0 <= i < j < e.len() ==> e[i].0 != e[j].0
}

/// The value stored under `key`, if any.
pub open spec fn lookup(e: Entries, key: Seq<char>) -> Option<MetaValueView>
    decreases e.len(),
{
    if e.len() == 0 {
        None
    } else if e[0].0 == key {
        Some(e[0].1)
    } else {
        lookup(e.drop_first(), key)
    }
}

/// A string field: the value when it is a string, else the empty string.
pub open spec fn text_field(e: Entries, key: Seq<char>) -> Seq<char> {
    match lookup(e, key) {
        Some(MetaValueView::Text(s)) => s,
        _ => Seq::empty(),
    }
}

/// The string that a sequence element stands for: itself, or empty.
pub open spec fn element_text(o: Option<Seq<char>>) -> Seq<char> {
    match o {
        Some(s) => s,
        None => Seq::empty(),
    }
}

/// A list field: each element of the value when it is a sequence (an
/// element that is no string counts as the empty string), else empty.
pub open spec fn list_field(e: Entries, key: Seq<char>) -> Seq<Seq<char>> {
    match lookup(e, key) {
        Some(MetaValueView::List(items)) => items.map_values(|o: Option<Seq<char>>| element_text(o)),
        _ => Seq::empty(),
    }
}

/// What YAML parsing makes of `text` as a mapping from string keys: `None`
/// where the text is not such a mapping, else its entries, each value
/// reduced to a [`MetaValueView`].
pub uninterp spec fn yaml_mapping(text: Seq<char>) -> Option<Entries>;

/// Relies on `serde_yaml::from_str` into a `BTreeMap<String, Value>`: it
/// succeeds exactly on the texts that are a YAML mapping with string keys,
/// and a `BTreeMap` holds each key once. The conversion keeps string values,
/// and of a sequence each element's `Value::as_str`.
#[verifier::external_body]
fn yaml_entries(text: &str) -> (r: Result<Vec<(String, MetaValue)>, serde_yaml::Error>)
    ensures
        match r {
            Ok(v) => yaml_mapping(text@) == Some(entries_view(v@)) && keys_distinct(entries_view(v@)),
            Err(_) => yaml_mapping(text@) is None,
        },
{
    let map = serde_yaml::from_str::<BTreeMap<String, serde_yaml::Value>>(text)?;
    Ok(map.into_iter().map(|(key, value)| match value {
        serde_yaml::Value::String(s) => (key, MetaValue::Text(s)),
        serde_yaml::Value::Sequence(items) => {
            (key, MetaValue::List(items.iter().map(|i| i.as_str().map(String::from)).collect()))
        },
        _ => (key, MetaValue::Other),
    }).collect())
}

#[verifier::external_type_specification]
#[verifier::external_body]
pub struct ExYamlError(serde_yaml::Error);

/// A metadata mapping: key/value pairs with distinct keys.
#[derive(Debug, Clone)]
pub struct Metadata {
    pub entries: Vec<(String, MetaValue)>,
}

impl View for Metadata {
    type V = Entries;

    open spec fn view(&self) -> Entries {
        entries_view(self.entries@)
    }
}

impl Metadata {
    pub open spec fn wf(&self) -> bool {
        keys_distinct(self@)
    }

    /// The empty mapping.
    pub fn empty() -> (m: Metadata)
        ensures
            m@ == Seq::<(Seq<char>, MetaValueView)>::empty(),
            m.wf(),
    {
        let m = Metadata { entries: Vec::new() };
        assert(m@ =~= Seq::<(Seq<char>, MetaValueView)>::empty());
        m
    }

    /// Number of keys.
    pub fn len(&self) -> (n: usize)
        ensures
            n == self@.len(),
    {
        self.entries.len()
    }

    /// The value stored under `key`, if any.
    pub fn get(&self, key: &str) -> (r: Option<&MetaValue>)
        ensures
            match r {
                Some(v) => lookup(self@, key@) == Some(v@),
                None => lookup(self@, key@) is None,
            },
    {
        let k = key.to_string();
        let mut i: usize = 0;
        assert(self@.subrange(0, self@.len() as int) =~= self@);
        while i < self.entries.len()
            invariant
                0 <= i <= self.entries.len(),
                lookup(self@, key@) == lookup(self@.subrange(i as int, self@.len() as int), key@),
                k@ == key@,
            decreases self.entries.len() - i,
        {
            let ghost rest = self@.subrange(i as int, self@.len() as int);
            assert(rest.drop_first() =~= self@.subrange(i + 1, self@.len() as int));
            if self.entries[i].0 == k {
                return Some(&self.entries[i].1);
            }
            i = i + 1;
        }
        None
    }
}

/// The error of a metadata block that is present but is no YAML mapping.
#[derive(Debug)]
pub enum FrontMatterError {
    InvalidYaml(serde_yaml::Error),
}

/// The mapping that a metadata block stands for: the empty block is the
/// empty mapping, any other block is parsed as YAML.
pub open spec fn metadata_of(block: Seq<char>) -> Option<Entries> {
    if block.len() == 0 {
        Some(Seq::empty())
    } else {
        yaml_mapping(block)
    }
}

/// Parses a metadata block as a YAML mapping from string keys; the empty
/// block is the empty mapping.
pub fn parse_metadata(metadata: &str) -> (r: Result<Metadata, FrontMatterError>)
    ensures
        match r {
            Ok(m) => metadata_of(metadata@) == Some(m@) && m.wf(),
            Err(_) => metadata_of(metadata@) is None,
        },
{
    if metadata.is_empty() {
        return Ok(Metadata::empty());
    }
    match yaml_entries(metadata) {
        Ok(entries) => Ok(Metadata { entries }),
        Err(e) => Err(FrontMatterError::InvalidYaml(e)),
    }
}

/// The string field `key` of `m`: its value when that is a string, else empty.
pub fn text_value(m: &Metadata, key: &str) -> (r: String)
    ensures
        r@ == text_field(m@, key@),
{
    match m.get(key) {
        Some(MetaValue::Text(s)) => s.clone(),
        _ => String::new(),
    }
}

/// The list field `key` of `m`: the elements of its value when that is a
/// sequence (an element that is no string becomes empty), else empty.
pub fn list_value(m: &Metadata, key: &str) -> (r: Vec<String>)
    ensures
        r@.map_values(|s: String| s@) == list_field(m@, key@),
{
    match m.get(key) {
        Some(MetaValue::List(items)) => {
            let mut out: Vec<String> = Vec::new();
            let ghost src = items@.map_values(|o: Option<String>| opt_str_view(o));
            for j in 0..items.len()
                invariant
                    out@.len() == j,
                    src == items@.map_values(|o: Option<String>| opt_str_view(o)),
                    forall|t: int| 0 <= t < j ==> out@[t]@ == element_text(src[t]),
            {
                match &items[j] {
                    Some(s) => out.push(s.clone()),
                    None => out.push(String::new()),
                }
            }
            assert(out@.map_values(|s: String| s@) =~= src.map_values(
                |o: Option<Seq<char>>| element_text(o),
            ));
            out
        },
        _ => {
            let out: Vec<String> = Vec::new();
            assert(out@.map_values(|s: String| s@) =~= Seq::<Seq<char>>::empty());
            out
        },
    }
}

} // verus!
