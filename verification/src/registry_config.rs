//! Kinds of container registries and the settings kept for each.
use vstd::prelude::*;
use crate::strmap::{StrMap, insert_pair, lookup};
use crate::text::{ascii_lowered, is_ascii_text, lowercase_of, push_str, str_eq, to_lowercase};

verus! {

/// Kind of container registry.
#[derive(Debug, Clone, Copy, PartialEq, Eq, Structural)]
pub enum RegistryType {
    /// GitHub Container Registry (ghcr.io)
    Ghcr,
    /// Docker Hub (docker.io)
    Docker,
    /// AWS Elastic Container Registry
    Ecr,
    /// A registry with a user-defined URL pattern
    Custom,
}

/// The registry kind a lower-case name stands for.
pub open spec fn registry_type_named(s: Seq<char>) -> Option<RegistryType> {
    if s == "ghcr"@ {
        Some(RegistryType::Ghcr)
    } else if s == "docker"@ {
        Some(RegistryType::Docker)
    } else if s == "ecr"@ {
        Some(RegistryType::Ecr)
    } else if s == "custom"@ {
        Some(RegistryType::Custom)
    } else {
        None
    }
}

/// The name of a registry kind.
pub open spec fn registry_type_text(t: RegistryType) -> Seq<char> {
    match t {
        RegistryType::Ghcr => "ghcr"@,
        RegistryType::Docker => "docker"@,
        RegistryType::Ecr => "ecr"@,
        RegistryType::Custom => "custom"@,
    }
}

impl RegistryType {
    /// Parses a registry kind by name, in any letter case; the error names
    /// the unknown text.
    pub fn from_str(s: &str) -> (r: Result<RegistryType, String>)
        ensures
            match r {
                Ok(t) => registry_type_named(lowercase_of(s@)) == Some(t),
                Err(m) => registry_type_named(lowercase_of(s@)) is None && m@
                    == "Unknown registry type: "@ + s@,
            },
            is_ascii_text(s@) ==> lowercase_of(s@) == ascii_lowered(s@),
    {
        let lower = to_lowercase(s);
        let l = lower.as_str();
        if str_eq(l, "ghcr") {
            Ok(RegistryType::Ghcr)
        } else if str_eq(l, "docker") {
            Ok(RegistryType::Docker)
        } else if str_eq(l, "ecr") {
            Ok(RegistryType::Ecr)
        } else if str_eq(l, "custom") {
            Ok(RegistryType::Custom)
        } else {
            let mut m = "Unknown registry type: ".to_owned();
            push_str(&mut m, s);
            Err(m)
        }
    }

    /// The name of the kind: `ghcr`, `docker`, `ecr` or `custom`.
    pub fn to_string(&self) -> (r: String)
        ensures
            r@ == registry_type_text(*self),
    {
        match self {
            RegistryType::Ghcr => "ghcr".to_owned(),
            RegistryType::Docker => "docker".to_owned(),
            RegistryType::Ecr => "ecr".to_owned(),
            RegistryType::Custom => "custom".to_owned(),
        }
    }
}

impl std::str::FromStr for RegistryType {
    type Err = String;

    fn from_str(s: &str) -> (r: Result<RegistryType, String>)
        ensures
            match r {
                Ok(t) => registry_type_named(lowercase_of(s@)) == Some(t),
                Err(m) => registry_type_named(lowercase_of(s@)) is None && m@
                    == "Unknown registry type: "@ + s@,
            },
            is_ascii_text(s@) ==> lowercase_of(s@) == ascii_lowered(s@),
    {
        RegistryType::from_str(s)
    }
}

/// Settings of one container registry.
pub struct RegistryConfig {
    /// Human-readable name of this configuration
    pub name: String,
    /// Kind of registry
    pub registry_type: RegistryType,
    /// Whether the registry is in use
    pub enabled: bool,
    /// Selection priority (lower is preferred)
    pub priority: u32,
    /// Registry-specific settings, by key
    pub config: StrMap<String>,
    /// Optional display URL
    pub display_url: Option<String>,
}

/// Model of [`RegistryConfig`].
pub struct RegistryConfigModel {
    pub name: Seq<char>,
    pub registry_type: RegistryType,
    pub enabled: bool,
    pub priority: u32,
    pub config: Seq<(Seq<char>, Seq<char>)>,
    pub display_url: Option<Seq<char>>,
}

impl View for RegistryConfig {
    type V = RegistryConfigModel;

    open spec fn view(&self) -> RegistryConfigModel {
        RegistryConfigModel {
            name: self.name@,
            registry_type: self.registry_type,
            enabled: self.enabled,
            priority: self.priority,
            config: self.config@,
            display_url: self.display_url.deep_view(),
        }
    }
}

/// `m` with `k` set to `v` when `v` is present.
pub open spec fn insert_opt(m: Seq<(Seq<char>, Seq<char>)>, k: Seq<char>, v: Option<Seq<char>>) -> Seq<
    (Seq<char>, Seq<char>),
> {
    match v {
        Some(x) => insert_pair(m, k, x),
        None => m,
    }
}

impl RegistryConfig {
    /// GitHub Container Registry settings for `organization`: enabled,
    /// priority 1, the organization as setting, its packages page as URL.
    pub fn new_ghcr(name: String, organization: &str) -> (r: Self)
        ensures
            r@.name == name@,
            r@.registry_type == RegistryType::Ghcr,
            r@.enabled,
            r@.priority == 1,
            r@.config == seq![("organization"@, organization@)],
            r@.display_url == Some("https://github.com/orgs/"@ + organization@ + "/packages"@),
    {
        let mut config: StrMap<String> = StrMap::new();
        config.insert("organization".to_owned(), organization.to_owned());
        let mut url = "https://github.com/orgs/".to_owned();
        push_str(&mut url, organization);
        push_str(&mut url, "/packages");
        RegistryConfig {
            name,
            registry_type: RegistryType::Ghcr,
            enabled: true,
            priority: 1,
            config,
            display_url: Some(url),
        }
    }

    /// Docker Hub settings: enabled, priority 2, no settings, the hub's URL.
    pub fn new_docker(name: String) -> (r: Self)
        ensures
            r@.name == name@,
            r@.registry_type == RegistryType::Docker,
            r@.enabled,
            r@.priority == 2,
            r@.config == Seq::<(Seq<char>, Seq<char>)>::empty(),
            r@.display_url == Some("https://hub.docker.com"@),
    {
        RegistryConfig {
            name,
            registry_type: RegistryType::Docker,
            enabled: true,
            priority: 2,
            config: StrMap::new(),
            display_url: Some("https://hub.docker.com".to_owned()),
        }
    }

    /// ECR settings: enabled, priority 3, the account and region that are
    /// given as settings, no display URL.
    pub fn new_ecr(name: String, account_id: Option<String>, region: Option<String>) -> (r: Self)
        ensures
            r@.name == name@,
            r@.registry_type == RegistryType::Ecr,
            r@.enabled,
            r@.priority == 3,
            r@.config == insert_opt(
                insert_opt(Seq::empty(), "account_id"@, account_id.deep_view()),
                "region"@,
                region.deep_view(),
            ),
            r@.display_url is None,
    {
        let mut config: StrMap<String> = StrMap::new();
        match account_id {
            Some(a) => {
                config.insert("account_id".to_owned(), a);
            },
            None => {},
        }
        match region {
            Some(g) => {
                config.insert("region".to_owned(), g);
            },
            None => {},
        }
        RegistryConfig {
            name,
            registry_type: RegistryType::Ecr,
            enabled: true,
            priority: 3,
            config,
            display_url: None,
        }
    }

    /// Custom registry settings: enabled, priority 4, the URL pattern and
    /// the auth type that is given as settings, no display URL.
    pub fn new_custom(name: String, url_pattern: &str, auth_type: Option<String>) -> (r: Self)
        ensures
            r@.name == name@,
            r@.registry_type == RegistryType::Custom,
            r@.enabled,
            r@.priority == 4,
            r@.config == insert_opt(
                seq![("url_pattern"@, url_pattern@)],
                "auth_type"@,
                auth_type.deep_view(),
            ),
            r@.display_url is None,
    {
        let mut config: StrMap<String> = StrMap::new();
        config.insert("url_pattern".to_owned(), url_pattern.to_owned());
        match auth_type {
            Some(a) => {
                config.insert("auth_type".to_owned(), a);
            },
            None => {},
        }
        RegistryConfig {
            name,
            registry_type: RegistryType::Custom,
            enabled: true,
            priority: 4,
            config,
            display_url: None,
        }
    }

    /// The setting stored under `key`.
    pub fn get_config_str(&self, key: &str) -> (r: Option<String>)
        ensures
            r.deep_view() == lookup(self@.config, key@),
    {
        match self.config.get(key) {
            Some(v) => Some(v.clone()),
            None => None,
        }
    }

    /// Whether the registry needs credentials: never for GHCR and Docker Hub,
    /// always for ECR, and for a custom registry when its auth type is set
    /// to something other than `none`.
    pub fn requires_auth(&self) -> (r: bool)
        ensures
            r == match self.registry_type {
                RegistryType::Ghcr | RegistryType::Docker => false,
                RegistryType::Ecr => true,
                RegistryType::Custom => match lookup(self@.config, "auth_type"@) {
                    Some(a) => a != "none"@,
                    None => false,
                },
            },
    {
        match self.registry_type {
            RegistryType::Ghcr | RegistryType::Docker => false,
            RegistryType::Ecr => true,
            RegistryType::Custom => match self.get_config_str("auth_type") {
                Some(a) => !str_eq(a.as_str(), "none"),
                None => false,
            },
        }
    }
}

} // verus!
