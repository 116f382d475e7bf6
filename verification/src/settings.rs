//! Named sections of the user's configuration file and the rule that
//! creates a missing section from its default.
use vstd::prelude::*;
use crate::documents::{parse_toml, toml_parsed_of, TomlValue};
use crate::lines::{trim_text, trimmed};
use crate::strmap::{insert_pair, keys_of, lookup, remove_key, StrMap};
use crate::text::push_str;

verus! {

/// A section of the configuration file, stored under its name.
pub trait ConfigSection: Sized {
    /// The key of the section in the top-level table.
    fn section_name() -> &'static str;
}

/// The section to use and whether it was just created: an existing section
/// is used as it is, a missing one is created from `default`.
pub fn load_or_create_section<T: ConfigSection>(existing: Option<T>, default: T) -> (r: (T, bool))
    ensures
        match existing {
            Some(s) => r == (s, false),
            None => r == (default, true),
        },
{
    match existing {
        Some(s) => (s, false),
        None => (default, true),
    }
}

/// Telemetry settings.
#[derive(Debug, Clone)]
pub struct TelemetryConfig {
    /// Identifier of this installation
    pub installation_id: String,
    /// Whether telemetry is sent
    pub telemetry_enabled: bool,
}

impl ConfigSection for TelemetryConfig {
    fn section_name() -> (r: &'static str)
        ensures
            r@ == "telemetry"@,
    {
        "telemetry"
    }
}

/// Stored authentication tokens.
#[derive(Debug, Clone)]
pub struct AuthConfig {
    /// Access token
    pub access_token: Option<String>,
    /// Refresh token
    pub refresh_token: Option<String>,
    /// Expiry, in seconds since the epoch
    pub expires_at: Option<i64>,
}

impl ConfigSection for AuthConfig {
    fn section_name() -> (r: &'static str)
        ensures
            r@ == "auth"@,
    {
        "auth"
    }
}

/// Registry settings section.
#[derive(Debug, Clone)]
pub struct RegistryConfig {
    /// Registry used by default
    pub default_registry: String,
    /// Known registries
    pub registries: Vec<RegistryEntry>,
}

/// One known registry.
#[derive(Debug, Clone)]
pub struct RegistryEntry {
    /// Name of the registry
    pub name: String,
    /// URL of the registry
    pub url: String,
    /// Whether pushing needs credentials
    pub auth_required: bool,
}

impl ConfigSection for RegistryConfig {
    fn section_name() -> (r: &'static str)
        ensures
            r@ == "registry"@,
    {
        "registry"
    }
}

impl Default for RegistryConfig {
    /// GHCR as the default and only registry, with credentials required.
    fn default() -> (r: RegistryConfig)
        ensures
            r.default_registry@ == "ghcr.io"@,
            r.registries@.len() == 1,
            r.registries@[0].name@ == "ghcr.io"@,
            r.registries@[0].url@ == "https://ghcr.io"@,
            r.registries@[0].auth_required,
    {
        let mut registries: Vec<RegistryEntry> = Vec::new();
        registries.push(
            RegistryEntry {
                name: "ghcr.io".to_owned(),
                url: "https://ghcr.io".to_owned(),
                auth_required: true,
            },
        );
        RegistryConfig { default_registry: "ghcr.io".to_owned(), registries }
    }
}

// ---------------------------------------------------------------------------
// The configuration file
// ---------------------------------------------------------------------------

/// The sections of a document's top-level table, in the table's order.
pub open spec fn section_entries(entries: Seq<(String, TomlValue)>) -> Seq<(Seq<char>, TomlValue)>
    decreases entries.len(),
{
    if entries.len() == 0 {
        Seq::empty()
    } else {
        insert_pair(section_entries(entries.drop_last()), entries.last().0@, entries.last().1)
    }
}

/// What the configuration file at `path` holds, given its text (`None`
/// when there is no file): no sections for a missing or blank file, the
/// sections of its top-level table, or an error naming the file.
pub open spec fn loaded_sections(contents: Option<Seq<char>>, path: Seq<char>) -> Result<
    Seq<(Seq<char>, TomlValue)>,
    Seq<char>,
> {
    match contents {
        None => Ok(Seq::empty()),
        Some(c) => if trimmed(c).len() == 0 {
            Ok(Seq::empty())
        } else {
            match toml_parsed_of(c) {
                Ok(TomlValue::Table(entries)) => Ok(section_entries(entries@)),
                _ => Err("Failed to parse config file at "@ + path),
            }
        },
    }
}

/// The configuration file: where it lives and its sections, each a TOML
/// value under its name.
pub struct Config {
    path: String,
    data: StrMap<TomlValue>,
}

impl Config {
    /// Where the file lives.
    pub closed spec fn file_path(&self) -> Seq<char> {
        self.path@
    }

    /// The sections, in the order they were read or added.
    pub closed spec fn sections(&self) -> Seq<(Seq<char>, TomlValue)> {
        self.data@
    }

    /// The configuration of the file at `path` from its text (`None` when
    /// there is no file); see [`loaded_sections`].
    pub fn from_file_contents(path: String, contents: Option<&str>) -> (r: Result<Config, String>)
        ensures
            match loaded_sections(
                match contents {
                    Some(c) => Some(c@),
                    None => None,
                },
                path@,
            ) {
                Ok(sections) => r matches Ok(c) && c.file_path() == path@ && c.sections() == sections,
                Err(e) => r matches Err(m) && m@ == e,
            },
    {
        let text = match contents {
            None => {
                return Ok(Config { path, data: StrMap::new() });
            },
            Some(c) => c,
        };
        if trim_text(text).as_str().unicode_len() == 0 {
            return Ok(Config { path, data: StrMap::new() });
        }
        let mut failure = "Failed to parse config file at ".to_owned();
        push_str(&mut failure, path.as_str());
        let mut rest = match parse_toml(text) {
            Ok(TomlValue::Table(entries)) => entries,
            _ => {
                return Err(failure);
            },
        };
        let ghost all = rest@;
        let mut data: StrMap<TomlValue> = StrMap::new();
        let mut n: usize = 0;
        let total = rest.len();
        while rest.len() > 0
            invariant
                total == all.len(),
                n + rest@.len() == all.len(),
                rest@ == all.subrange(n as int, all.len() as int),
                data@ == section_entries(all.subrange(0, n as int)),
            decreases rest@.len(),
        {
            assert(all.subrange(0, n + 1).drop_last() =~= all.subrange(0, n as int));
            let (k, v) = rest.remove(0);
            assert(rest@ =~= all.subrange(n + 1, all.len() as int));
            data.insert(k, v);
            n = n + 1;
        }
        assert(all.subrange(0, all.len() as int) =~= all);
        Ok(Config { path, data })
    }

    /// Where the file lives.
    pub fn path(&self) -> (r: &str)
        ensures
            r@ == self.file_path(),
    {
        self.path.as_str()
    }

    /// Whether the file has the section named `name` (for a section type
    /// `T`, its `T::section_name()`).
    pub fn has_section(&self, name: &str) -> (r: bool)
        ensures
            r == (lookup(self.sections(), name@) is Some),
    {
        self.data.get(name).is_some()
    }

    /// The value of the section named `name`, if the file has it.
    pub fn section(&self, name: &str) -> (r: Option<&TomlValue>)
        ensures
            match r {
                Some(v) => lookup(self.sections(), name@) == Some(*v),
                None => lookup(self.sections(), name@) is None,
            },
    {
        self.data.get(name)
    }

    /// Stores `value` as the section named `name`, in place of an existing
    /// one.
    pub fn set_section(&mut self, name: &str, value: TomlValue)
        ensures
            final(self).sections() == insert_pair(old(self).sections(), name@, value),
            final(self).file_path() == old(self).file_path(),
    {
        self.data.insert(name.to_owned(), value);
    }

    /// Removes the section named `name` and gives back its value.
    pub fn remove_section(&mut self, name: &str) -> (r: Option<TomlValue>)
        ensures
            final(self).sections() == remove_key(old(self).sections(), name@),
            final(self).file_path() == old(self).file_path(),
            match r {
                Some(v) => lookup(old(self).sections(), name@) == Some(v),
                None => lookup(old(self).sections(), name@) is None,
            },
    {
        self.data.remove(name)
    }

    /// The names of the sections, in order.
    pub fn section_names(&self) -> (r: Vec<String>)
        ensures
            r.deep_view() == keys_of(self.sections()),
    {
        self.data.keys()
    }

    /// Removes every section.
    pub fn clear(&mut self)
        ensures
            final(self).sections() == Seq::<(Seq<char>, TomlValue)>::empty(),
            final(self).file_path() == old(self).file_path(),
    {
        self.data.clear();
    }
}

} // verus!
