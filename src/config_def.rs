//! Schema of configuration settings: each key with its documentation,
//! default and importance, in the order of definition; and how a setting's
//! text is read as a typed value.
use indexmap::IndexMap;
use vstd::prelude::*;
use vstd::string::StringExecFns;

use crate::config_synonym::{parse_i32, parse_i32_exec, parse_integer};
use crate::password::Password;
use crate::text::{join_with_commas, trim, trimmed_of};

verus! {

/// The importance level of a setting.
#[allow(non_camel_case_types)]
#[derive(Debug, PartialEq, Eq, Clone, Copy, Structural)]
pub enum Importance {
    HIGH,
    MEDIUM,
    LOW,
}

/// Why a configuration could not be read.
#[derive(Debug)]
pub enum ConfigError {
    /// A required key has neither a value nor a default.
    MissingKey(String),
    /// The value of `key` does not parse as the setting's type.
    InvalidValue { key: String, message: String },
    /// The value of `key` was rejected by the setting's validator.
    ValidationFailed { key: String, message: String },
}

/// `e` reports that the value of `key` did not parse.
pub open spec fn is_invalid_value_of(e: ConfigError, key: Seq<char>) -> bool {
    e matches ConfigError::InvalidValue { key: k, .. } && k@ == key
}

/// The character sequence `s` lower-cased by `str::to_lowercase`.
pub uninterp spec fn lowercase_of(s: Seq<char>) -> Seq<char>;

/// Relies on `str::to_lowercase`: the result depends on the characters alone.
#[verifier::external_body]
fn to_lowercase(s: &str) -> (r: String)
    ensures
        r@ == lowercase_of(s@),
{
    s.to_lowercase()
}

/// What `i64::from_str` accepts: an integer in the `i64` range.
pub open spec fn parse_i64(s: Seq<char>) -> Option<i64> {
    match parse_integer(s) {
        Some(v) => if i64::MIN <= v <= i64::MAX {
            Some(v as i64)
        } else {
            None
        },
        None => None,
    }
}

/// Relies on `i64::from_str` (`str::parse::<i64>`), whose accepted syntax its
/// documentation gives: an optional sign and decimal digits, in range. On
/// failure the error's text comes back.
#[verifier::external_body]
fn parse_i64_exec(s: &str) -> (r: Result<i64, String>)
    ensures
        r matches Ok(v) ==> parse_i64(s@) == Some(v),
        r is Err ==> parse_i64(s@) is None,
{
    match s.parse::<i64>() {
        Ok(v) => Ok(v),
        Err(e) => Err(e.to_string()),
    }
}

/// What `bool::from_str` accepts: exactly `true` or `false`.
pub open spec fn parse_bool(s: Seq<char>) -> Option<bool> {
    if s == "true"@ {
        Some(true)
    } else if s == "false"@ {
        Some(false)
    } else {
        None
    }
}

/// Relies on `bool::from_str` (`str::parse::<bool>`), which its documentation
/// says accepts exactly `true` and `false`. On failure the error's text comes
/// back.
#[verifier::external_body]
fn parse_bool_exec(s: &str) -> (r: Result<bool, String>)
    ensures
        r matches Ok(v) ==> parse_bool(s@) == Some(v),
        r is Err ==> parse_bool(s@) is None,
{
    match s.parse::<bool>() {
        Ok(v) => Ok(v),
        Err(e) => Err(e.to_string()),
    }
}

/// Relies on `str::split` with a `','` pattern: the pieces between commas,
/// in order, none holding a comma.
#[verifier::external_body]
fn split_commas(s: &str) -> (r: Vec<String>)
    ensures
        r@.len() >= 1,
        join_with_commas(r@.map_values(|p: String| p@)) == s@,
        forall|i: int| 0 <= i < r@.len() ==> !(#[trigger] r@[i])@.contains(','),
{
    s.split(',').map(|p| p.to_string()).collect()
}

/// The text a number or flag is parsed from: trimmed, then lower-cased.
pub open spec fn normalized(value: Seq<char>) -> Seq<char> {
    lowercase_of(trimmed_of(value))
}

/// A type whose values can be read from a setting's text.
pub trait ConfigValueType: Sized {
    /// `r` is what parsing `value` for setting `key` gives.
    spec fn parsed(key: Seq<char>, value: Seq<char>, r: Result<Self, ConfigError>) -> bool;

    /// Parses the text of setting `key`.
    fn parse(key: &str, value_str: &str) -> (r: Result<Self, ConfigError>)
        ensures
            Self::parsed(key@, value_str@, r),
    ;
}

fn invalid_value(key: &str, message: String) -> (r: ConfigError)
    ensures
        is_invalid_value_of(r, key@),
{
    ConfigError::InvalidValue { key: String::from_str(key), message }
}

impl ConfigValueType for bool {
    open spec fn parsed(key: Seq<char>, value: Seq<char>, r: Result<bool, ConfigError>) -> bool {
        match r {
            Ok(v) => parse_bool(normalized(value)) == Some(v),
            Err(e) => parse_bool(normalized(value)) is None && is_invalid_value_of(e, key),
        }
    }

    fn parse(key: &str, value_str: &str) -> (r: Result<bool, ConfigError>) {
        let text = to_lowercase(trim(value_str));
        match parse_bool_exec(text.as_str()) {
            Ok(v) => Ok(v),
            Err(message) => Err(invalid_value(key, message)),
        }
    }
}

impl ConfigValueType for i32 {
    open spec fn parsed(key: Seq<char>, value: Seq<char>, r: Result<i32, ConfigError>) -> bool {
        match r {
            Ok(v) => parse_i32(normalized(value)) == Some(v),
            Err(e) => parse_i32(normalized(value)) is None && is_invalid_value_of(e, key),
        }
    }

    fn parse(key: &str, value_str: &str) -> (r: Result<i32, ConfigError>) {
        let text = to_lowercase(trim(value_str));
        match parse_i32_exec(text.as_str()) {
            Ok(v) => Ok(v),
            Err(message) => Err(invalid_value(key, message)),
        }
    }
}

impl ConfigValueType for i64 {
    open spec fn parsed(key: Seq<char>, value: Seq<char>, r: Result<i64, ConfigError>) -> bool {
        match r {
            Ok(v) => parse_i64(normalized(value)) == Some(v),
            Err(e) => parse_i64(normalized(value)) is None && is_invalid_value_of(e, key),
        }
    }

    fn parse(key: &str, value_str: &str) -> (r: Result<i64, ConfigError>) {
        let text = to_lowercase(trim(value_str));
        match parse_i64_exec(text.as_str()) {
            Ok(v) => Ok(v),
            Err(message) => Err(invalid_value(key, message)),
        }
    }
}

impl ConfigValueType for String {
    open spec fn parsed(key: Seq<char>, value: Seq<char>, r: Result<String, ConfigError>) -> bool {
        r matches Ok(v) && v@ == trimmed_of(value)
    }

    fn parse(_key: &str, value_str: &str) -> (r: Result<String, ConfigError>) {
        Ok(String::from_str(trim(value_str)))
    }
}

impl ConfigValueType for Vec<String> {
    open spec fn parsed(key: Seq<char>, value: Seq<char>, r: Result<Vec<String>, ConfigError>) -> bool {
        r matches Ok(items) && exists|pieces: Seq<Seq<char>>|
            {
                &&& pieces.len() >= 1
                &&& join_with_commas(pieces) == trimmed_of(value)
                &&& forall|i: int| 0 <= i < pieces.len() ==> !(#[trigger] pieces[i]).contains(',')
                &&& items@.len() == pieces.len()
                &&& forall|i: int|
                    0 <= i < pieces.len() ==> (#[trigger] items@[i])@ == trimmed_of(pieces[i])
            }
    }

    fn parse(_key: &str, value_str: &str) -> (r: Result<Vec<String>, ConfigError>) {
        let pieces = split_commas(trim(value_str));
        let ghost piece_views = pieces@.map_values(|p: String| p@);
        let mut items: Vec<String> = Vec::new();
        let mut i: usize = 0;
        while i < pieces.len()
            invariant
                i <= pieces@.len(),
                piece_views == pieces@.map_values(|p: String| p@),
                items@.len() == i,
                forall|j: int| 0 <= j < i ==> (#[trigger] items@[j])@ == trimmed_of(piece_views[j]),
            decreases pieces@.len() - i,
        {
            items.push(String::from_str(trim(pieces[i].as_str())));
            i = i + 1;
        }
        assert(forall|j: int| 0 <= j < piece_views.len() ==> !(#[trigger] piece_views[j]).contains(',')) by {
            assert forall|j: int| 0 <= j < piece_views.len() implies !(#[trigger] piece_views[j]).contains(',') by {
                assert(piece_views[j] == pieces@[j]@);
            }
        }
        Ok(items)
    }
}

impl ConfigValueType for Password {
    open spec fn parsed(key: Seq<char>, value: Seq<char>, r: Result<Password, ConfigError>) -> bool {
        r matches Ok(p) && p@ == trimmed_of(value)
    }

    fn parse(_key: &str, value_str: &str) -> (r: Result<Password, ConfigError>) {
        Ok(Password::new(String::from_str(trim(value_str))))
    }
}

/// A type that can be built from properties read against a schema.
pub trait FromConfigDef: Sized {
    fn from_props(
        props: &std::collections::HashMap<String, String>,
        def: &ConfigDef,
    ) -> Result<Self, ConfigError>;
}

/// One setting of a schema.
#[derive(Debug)]
pub struct ConfigKey {
    pub name: String,
    pub documentation: Option<String>,
    pub default_value: Option<String>,
    pub importance: Option<Importance>,
    pub group: Option<String>,
    pub order_in_group: Option<usize>,
    pub display_name: Option<String>,
    pub dependents: Vec<String>,
    pub internal_config: bool,
    pub alternative_string: Option<String>,
}

impl ConfigKey {
    /// `k` is a freshly named key: nothing but its name is set.
    pub open spec fn is_fresh(k: ConfigKey, name: Seq<char>) -> bool {
        &&& k.name@ == name
        &&& k.documentation is None
        &&& k.default_value is None
        &&& k.importance is None
        &&& k.group is None
        &&& k.order_in_group is None
        &&& k.display_name is None
        &&& k.dependents@.len() == 0
        &&& !k.internal_config
        &&& k.alternative_string is None
    }

    /// A key named `name` with nothing else set.
    pub fn new(name: &str) -> (r: Self)
        ensures
            Self::is_fresh(r, name@),
    {
        ConfigKey {
            name: String::from_str(name),
            documentation: None,
            default_value: None,
            importance: None,
            group: None,
            order_in_group: None,
            display_name: None,
            dependents: Vec::new(),
            internal_config: false,
            alternative_string: None,
        }
    }
}

#[verifier::external_type_specification]
#[verifier::external_body]
#[verifier::reject_recursive_types(K)]
#[verifier::reject_recursive_types(V)]
#[verifier::reject_recursive_types(S)]
pub struct ExIndexMap<K, V, S>(IndexMap<K, V, S>);

/// The entries of a map of keys by name, in insertion order.
pub uninterp spec fn key_entries(m: IndexMap<String, ConfigKey>) -> Seq<(Seq<char>, ConfigKey)>;

/// No name occurs twice among `entries`.
pub open spec fn names_unique(entries: Seq<(Seq<char>, ConfigKey)>) -> bool {
    forall|i: int, j: int|
        0 <= i < j < entries.len() ==> (#[trigger] entries[i]).0 != (#[trigger] entries[j]).0
}

/// Whether some entry is named `name`.
pub open spec fn has_name(entries: Seq<(Seq<char>, ConfigKey)>, name: Seq<char>) -> bool {
    exists|i: int| 0 <= i < entries.len() && (#[trigger] entries[i]).0 == name
}

/// Relies on `IndexMap::new`: a map with no entries.
#[verifier::external_body]
fn key_map_new() -> (r: IndexMap<String, ConfigKey>)
    ensures
        key_entries(r) == Seq::<(Seq<char>, ConfigKey)>::empty(),
{
    IndexMap::new()
}

/// Relies on `IndexMap::contains_key`: whether an entry has this key.
#[verifier::external_body]
fn key_map_contains(m: &IndexMap<String, ConfigKey>, name: &str) -> (r: bool)
    ensures
        r == has_name(key_entries(*m), name@),
{
    m.contains_key(name)
}

/// Relies on `IndexMap::insert`: a new key goes last; an existing key keeps
/// its place and gets the new value. Keys stay unique.
#[verifier::external_body]
fn key_map_insert(m: &mut IndexMap<String, ConfigKey>, key: String, value: ConfigKey)
    ensures
        names_unique(key_entries(*old(m))) ==> names_unique(key_entries(*final(m))),
        !has_name(key_entries(*old(m)), key@) ==> key_entries(*final(m)) == key_entries(
            *old(m),
        ).push((key@, value)),
        forall|i: int|
            0 <= i < key_entries(*old(m)).len() && (#[trigger] key_entries(*old(m))[i]).0 == key@
                ==> key_entries(*final(m)) == key_entries(*old(m)).update(i, (key@, value)),
{
    m.insert(key, value);
}

/// Relies on `IndexMap::get`: the value stored under the key, if any.
#[verifier::external_body]
fn key_map_get<'a>(m: &'a IndexMap<String, ConfigKey>, name: &str) -> (r: Option<&'a ConfigKey>)
    ensures
        names_unique(key_entries(*m)) ==> (r is Some <==> has_name(key_entries(*m), name@)),
        r matches Some(k) ==> exists|i: int|
            0 <= i < key_entries(*m).len() && (#[trigger] key_entries(*m)[i]).0 == name@
                && key_entries(*m)[i].1 == *k,
{
    m.get(name)
}

/// The keys of a configuration, in order of definition, and the groups they
/// belong to, in order of first use.
pub struct ConfigDef {
    config_keys: IndexMap<String, ConfigKey>,
    groups: Vec<String>,
}

impl ConfigDef {
    /// The keys, by name, in order of definition.
    pub closed spec fn spec_keys(&self) -> Seq<(Seq<char>, ConfigKey)> {
        key_entries(self.config_keys)
    }

    /// The groups, in order of first use.
    pub closed spec fn spec_groups(&self) -> Seq<Seq<char>> {
        self.groups@.map_values(|g: String| g@)
    }

    /// Key names are unique.
    pub open spec fn wf(&self) -> bool {
        names_unique(self.spec_keys())
    }

    /// An empty schema.
    fn empty() -> (r: Self)
        ensures
            r.spec_keys() == Seq::<(Seq<char>, ConfigKey)>::empty(),
            r.spec_groups() == Seq::<Seq<char>>::empty(),
            r.wf(),
    {
        let r = ConfigDef { config_keys: key_map_new(), groups: Vec::new() };
        assert(r.spec_groups() =~= Seq::<Seq<char>>::empty());
        r
    }

    /// A builder that starts from an empty schema.
    pub fn builder() -> (r: ConfigDefBuilder)
        ensures
            r.spec_def().spec_keys() == Seq::<(Seq<char>, ConfigKey)>::empty(),
            r.spec_def().spec_groups() == Seq::<Seq<char>>::empty(),
            r.spec_current() is None,
            r.wf(),
    {
        ConfigDefBuilder { def: ConfigDef::empty(), current_key: None }
    }

    /// The key named `name`, if the schema has one.
    pub fn find_key(&self, name: &str) -> (r: Option<&ConfigKey>)
        requires
            self.wf(),
        ensures
            r is Some <==> has_name(self.spec_keys(), name@),
            r matches Some(k) ==> exists|i: int|
                0 <= i < self.spec_keys().len() && (#[trigger] self.spec_keys()[i]).0 == name@
                    && self.spec_keys()[i].1 == *k,
    {
        key_map_get(&self.config_keys, name)
    }
}

/// Builds a schema key by key: `new` starts a key (committing the one before),
/// the other methods set fields of the current key, `build` commits the last.
pub struct ConfigDefBuilder {
    def: ConfigDef,
    current_key: Option<ConfigKey>,
}

/// `groups` with `g` added unless already there.
pub open spec fn add_group(groups: Seq<Seq<char>>, g: Option<String>) -> Seq<Seq<char>> {
    match g {
        Some(name) => if groups.contains(name@) {
            groups
        } else {
            groups.push(name@)
        },
        None => groups,
    }
}

impl ConfigDefBuilder {
    /// The schema committed so far.
    pub closed spec fn spec_def(&self) -> ConfigDef {
        self.def
    }

    /// The key being defined, not yet committed.
    pub closed spec fn spec_current(&self) -> Option<ConfigKey> {
        self.current_key
    }

    /// Committed names are unique.
    pub open spec fn wf(&self) -> bool {
        self.spec_def().wf()
    }

    /// The current key, if any, can be committed: its name is new.
    pub open spec fn can_commit(&self) -> bool {
        self.spec_current() matches Some(k) ==> !has_name(self.spec_def().spec_keys(), k.name@)
    }

    /// The keys once the current key is committed.
    pub open spec fn committed_keys(&self) -> Seq<(Seq<char>, ConfigKey)> {
        match self.spec_current() {
            Some(k) => self.spec_def().spec_keys().push((k.name@, k)),
            None => self.spec_def().spec_keys(),
        }
    }

    /// The groups once the current key is committed.
    pub open spec fn committed_groups(&self) -> Seq<Seq<char>> {
        match self.spec_current() {
            Some(k) => add_group(self.spec_def().spec_groups(), k.group),
            None => self.spec_def().spec_groups(),
        }
    }

    fn commit_current_key(&mut self)
        requires
            old(self).wf(),
            old(self).can_commit(),
        ensures
            final(self).wf(),
            final(self).spec_current() is None,
            final(self).spec_def().spec_keys() == old(self).committed_keys(),
            final(self).spec_def().spec_groups() == old(self).committed_groups(),
    {
        if let Some(key) = self.current_key.take() {
            if let Some(group_name) = &key.group {
                let mut found = false;
                let mut i: usize = 0;
                while i < self.def.groups.len()
                    invariant
                        i <= self.def.groups@.len(),
                        found == exists|j: int| 0 <= j < i && (#[trigger] self.def.groups@[j])@ == group_name@,
                    decreases self.def.groups@.len() - i,
                {
                    if crate::text::str_eq(self.def.groups[i].as_str(), group_name.as_str()) {
                        found = true;
                    }
                    i = i + 1;
                }
                let ghost before = self.def.groups@;
                proof {
                    let views = before.map_values(|g: String| g@);
                    if found {
                        let j = choose|j: int| 0 <= j < before.len() && (#[trigger] before[j])@ == group_name@;
                        assert(views[j] == group_name@);
                    } else {
                        assert forall|j: int| 0 <= j < views.len() implies views[j] != group_name@ by {
                            assert(views[j] == before[j]@);
                        }
                    }
                }
                if !found {
                    self.def.groups.push(group_name.clone());
                    assert(self.def.groups@.map_values(|g: String| g@) =~= before.map_values(
                        |g: String| g@,
                    ).push(group_name@));
                }
            }
            let name = key.name.clone();
            key_map_insert(&mut self.def.config_keys, name, key);
        }
    }

    /// Starts the key `name`, committing the current one first.
    pub fn new(self, name: &str) -> (r: Self)
        requires
            self.wf(),
            self.can_commit(),
        ensures
            r.wf(),
            r.spec_def().spec_keys() == self.committed_keys(),
            r.spec_def().spec_groups() == self.committed_groups(),
            r.spec_current() matches Some(k) && ConfigKey::is_fresh(k, name@),
    {
        let mut b = self;
        b.commit_current_key();
        b.current_key = Some(ConfigKey::new(name));
        b
    }

    /// Sets the importance of the current key.
    pub fn importance(self, value: Importance) -> (r: Self)
        requires
            self.spec_current() is Some,
        ensures
            r.spec_def() == self.spec_def(),
            r.spec_current() matches Some(k) && k == (ConfigKey {
                importance: Some(value),
                ..self.spec_current()->Some_0
            }),
    {
        let mut b = self;
        let mut key = b.current_key.take().unwrap();
        key.importance = Some(value);
        b.current_key = Some(key);
        b
    }

    /// Sets the default value of the current key.
    pub fn default_value(self, value: &str) -> (r: Self)
        requires
            self.spec_current() is Some,
        ensures
            r.spec_def() == self.spec_def(),
            r.spec_current() matches Some(k) && k.default_value matches Some(d) && d@ == value@
                && k.name == self.spec_current()->Some_0.name,
    {
        let mut b = self;
        let mut key = b.current_key.take().unwrap();
        key.default_value = Some(String::from_str(value));
        b.current_key = Some(key);
        b
    }

    /// Sets the documentation of the current key.
    pub fn documentation(self, value: &str) -> (r: Self)
        requires
            self.spec_current() is Some,
        ensures
            r.spec_def() == self.spec_def(),
            r.spec_current() matches Some(k) && k.documentation matches Some(d) && d@ == value@
                && k.name == self.spec_current()->Some_0.name,
    {
        let mut b = self;
        let mut key = b.current_key.take().unwrap();
        key.documentation = Some(String::from_str(value));
        b.current_key = Some(key);
        b
    }

    /// Commits the last key and gives the schema.
    pub fn build(self) -> (r: ConfigDef)
        requires
            self.wf(),
            self.can_commit(),
        ensures
            r.wf(),
            r.spec_keys() == self.committed_keys(),
            r.spec_groups() == self.committed_groups(),
    {
        let mut b = self;
        b.commit_current_key();
        b.def
    }
}

} // verus!
