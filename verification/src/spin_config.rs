//! The Spin manifest (spin.toml) data model and its rendering as TOML text.
use vstd::prelude::*;
use crate::strmap::{StrMap, insert_pair};
use crate::text::{
    debug_repr, debug_repr_of, join, push_char, push_str, toml_key_of, toml_key_repr, toml_string_of,
    toml_string_repr,
};

verus! {

// ---------------------------------------------------------------------------
// Models
// ---------------------------------------------------------------------------

/// Model of a manifest variable.
pub enum SpinVarModel {
    Default(Seq<char>),
    Required(bool),
    SecretDefault(Seq<char>, bool),
    SecretRequired(bool, bool),
}

/// Model of where a component's Wasm comes from.
pub enum SourceModel {
    Local(Seq<char>),
    Remote(Seq<char>, Seq<char>),
    Registry(Seq<char>, Seq<char>, Seq<char>),
}

/// Model of a file mount.
pub enum FileMountModel {
    Pattern(Seq<char>),
    Mapping(Seq<char>, Seq<char>),
}

/// Model of a component build section.
pub struct SpinBuildModel {
    pub command: Seq<char>,
    pub workdir: Seq<char>,
    pub watch: Seq<Seq<char>>,
    pub environment: Seq<(Seq<char>, Seq<char>)>,
}

/// Model of a component dependency.
pub struct DependencyModel {
    pub registry: Seq<char>,
    pub package: Seq<char>,
    pub version: Seq<char>,
}

/// Model of a manifest component.
pub struct SpinComponentModel {
    pub description: Seq<char>,
    pub source: SourceModel,
    pub files: Seq<FileMountModel>,
    pub exclude_files: Seq<Seq<char>>,
    pub allowed_outbound_hosts: Seq<Seq<char>>,
    pub key_value_stores: Seq<Seq<char>>,
    pub environment: Seq<(Seq<char>, Seq<char>)>,
    pub build: Option<SpinBuildModel>,
    pub variables: Seq<(Seq<char>, Seq<char>)>,
    pub dependencies_inherit_configuration: bool,
    pub dependencies: Seq<(Seq<char>, DependencyModel)>,
}

/// Model of the application section; `trigger` holds the optional Redis
/// address when an application trigger section is present.
pub struct AppModel {
    pub name: Seq<char>,
    pub version: Seq<char>,
    pub description: Seq<char>,
    pub authors: Seq<Seq<char>>,
    pub trigger: Option<Option<Seq<char>>>,
}

/// Model of a whole manifest without its triggers.
pub struct SpinModel {
    pub spin_manifest_version: i64,
    pub application: AppModel,
    pub variables: Seq<(Seq<char>, SpinVarModel)>,
    pub component: Seq<(Seq<char>, SpinComponentModel)>,
}

/// Model of an HTTP route.
pub enum RouteModel {
    Path(Seq<char>),
    Private(bool),
}

/// Model of an HTTP executor.
pub enum ExecutorModel {
    Spin,
    Wagi(Option<Seq<char>>, Option<Seq<char>>),
}

/// Model of an HTTP trigger.
pub struct HttpTriggerModel {
    pub route: RouteModel,
    pub component: Seq<char>,
    pub executor: Option<ExecutorModel>,
}

/// Model of a Redis trigger.
pub struct RedisTriggerModel {
    pub address: Option<Seq<char>>,
    pub channel: Seq<char>,
    pub component: Seq<char>,
}

/// Model of all triggers.
pub struct TriggersModel {
    pub http: Seq<HttpTriggerModel>,
    pub redis: Seq<RedisTriggerModel>,
}

/// The views of the elements of a sequence.
pub open spec fn views<T: View>(s: Seq<T>) -> Seq<T::V> {
    s.map_values(|x: T| x@)
}

// ---------------------------------------------------------------------------
// Executable types
// ---------------------------------------------------------------------------

/// Root of a spin.toml manifest.
pub struct SpinConfig {
    /// Manifest format version
    pub spin_manifest_version: i64,
    /// Application metadata
    pub application: ApplicationConfig,
    /// Application-level variables
    pub variables: StrMap<SpinVariable>,
    /// Components by name
    pub component: StrMap<ComponentConfig>,
}

/// Application metadata.
pub struct ApplicationConfig {
    /// Application name
    pub name: String,
    /// Application version
    pub version: String,
    /// Description
    pub description: String,
    /// Authors
    pub authors: Vec<String>,
    /// Application-global trigger settings
    pub trigger: Option<ApplicationTriggerConfig>,
}

/// Application-level trigger settings.
pub struct ApplicationTriggerConfig {
    /// Redis settings
    pub redis: Option<ApplicationRedisTriggerConfig>,
}

/// Application-level Redis settings.
pub struct ApplicationRedisTriggerConfig {
    /// Redis server address
    pub address: String,
}

/// A manifest variable.
pub enum SpinVariable {
    /// Variable with a default value
    Default {
        /// The default value
        default: String,
    },
    /// Required variable
    Required {
        /// Must be true
        required: bool,
    },
    /// Secret variable with a default value
    SecretDefault {
        /// The default value
        default: String,
        /// Marks the variable secret
        secret: bool,
    },
    /// Required secret variable
    SecretRequired {
        /// Must be true
        required: bool,
        /// Marks the variable secret
        secret: bool,
    },
}

/// A manifest component.
pub struct ComponentConfig {
    /// Description
    pub description: String,
    /// Source of the Wasm module
    pub source: ComponentSource,
    /// Files made available to the component
    pub files: Vec<FileMount>,
    /// Files to exclude
    pub exclude_files: Vec<String>,
    /// Allowed outbound hosts
    pub allowed_outbound_hosts: Vec<String>,
    /// Key-value stores the component can access
    pub key_value_stores: Vec<String>,
    /// Environment variables
    pub environment: StrMap<String>,
    /// Build section
    pub build: Option<ComponentBuildConfig>,
    /// Component variables
    pub variables: StrMap<String>,
    /// Whether dependencies inherit the component's configuration
    pub dependencies_inherit_configuration: bool,
    /// Component dependencies
    pub dependencies: StrMap<ComponentDependency>,
}

/// Source of a component's Wasm module.
pub enum ComponentSource {
    /// Local file path
    Local(String),
    /// Remote URL with digest
    Remote {
        /// URL of the Wasm file
        url: String,
        /// SHA256 digest
        digest: String,
    },
    /// Registry reference
    Registry {
        /// Registry domain
        registry: String,
        /// Package name
        package: String,
        /// Version
        version: String,
    },
}

/// A file mount.
pub enum FileMount {
    /// A file or glob pattern
    Pattern(String),
    /// Source to destination mapping
    Mapping {
        /// Source file or directory
        source: String,
        /// Destination path
        destination: String,
    },
}

/// Build section of a component.
pub struct ComponentBuildConfig {
    /// Build command
    pub command: String,
    /// Working directory
    pub workdir: String,
    /// Watched paths
    pub watch: Vec<String>,
    /// Build environment
    pub environment: StrMap<String>,
}

/// A component dependency.
pub struct ComponentDependency {
    /// Registry domain
    pub registry: String,
    /// Package name
    pub package: String,
    /// Version
    pub version: String,
}

/// Triggers of a manifest, kept apart from the components.
pub struct TriggerConfig {
    /// HTTP triggers
    pub http: Vec<HttpTrigger>,
    /// Redis triggers
    pub redis: Vec<RedisTrigger>,
}

/// An HTTP trigger.
pub struct HttpTrigger {
    /// Route
    pub route: RouteConfig,
    /// Component handling the trigger
    pub component: String,
    /// Executor
    pub executor: Option<ExecutorConfig>,
}

/// An HTTP route.
pub enum RouteConfig {
    /// A path
    Path(String),
    /// A private route
    Private {
        /// True for private routes
        private: bool,
    },
}

/// An HTTP executor.
pub enum ExecutorConfig {
    /// Spin executor
    Spin,
    /// WAGI executor
    Wagi {
        /// Arguments
        argv: Option<String>,
        /// Entry point function
        entrypoint: Option<String>,
    },
}

/// A Redis trigger.
pub struct RedisTrigger {
    /// Redis server address
    pub address: Option<String>,
    /// Channel to subscribe to
    pub channel: String,
    /// Component handling the trigger
    pub component: String,
}

// ---------------------------------------------------------------------------
// Views
// ---------------------------------------------------------------------------

impl View for SpinVariable {
    type V = SpinVarModel;

    open spec fn view(&self) -> SpinVarModel {
        match self {
            SpinVariable::Default { default } => SpinVarModel::Default(default@),
            SpinVariable::Required { required } => SpinVarModel::Required(*required),
            SpinVariable::SecretDefault { default, secret } => SpinVarModel::SecretDefault(default@, *secret),
            SpinVariable::SecretRequired { required, secret } => SpinVarModel::SecretRequired(*required, *secret),
        }
    }
}

impl View for ComponentSource {
    type V = SourceModel;

    open spec fn view(&self) -> SourceModel {
        match self {
            ComponentSource::Local(p) => SourceModel::Local(p@),
            ComponentSource::Remote { url, digest } => SourceModel::Remote(url@, digest@),
            ComponentSource::Registry { registry, package, version } => SourceModel::Registry(
                registry@,
                package@,
                version@,
            ),
        }
    }
}

impl View for FileMount {
    type V = FileMountModel;

    open spec fn view(&self) -> FileMountModel {
        match self {
            FileMount::Pattern(p) => FileMountModel::Pattern(p@),
            FileMount::Mapping { source, destination } => FileMountModel::Mapping(source@, destination@),
        }
    }
}

impl View for ComponentBuildConfig {
    type V = SpinBuildModel;

    open spec fn view(&self) -> SpinBuildModel {
        SpinBuildModel {
            command: self.command@,
            workdir: self.workdir@,
            watch: self.watch.deep_view(),
            environment: self.environment@,
        }
    }
}

impl View for ComponentDependency {
    type V = DependencyModel;

    open spec fn view(&self) -> DependencyModel {
        DependencyModel { registry: self.registry@, package: self.package@, version: self.version@ }
    }
}

impl View for ComponentConfig {
    type V = SpinComponentModel;

    open spec fn view(&self) -> SpinComponentModel {
        SpinComponentModel {
            description: self.description@,
            source: self.source@,
            files: views(self.files@),
            exclude_files: self.exclude_files.deep_view(),
            allowed_outbound_hosts: self.allowed_outbound_hosts.deep_view(),
            key_value_stores: self.key_value_stores.deep_view(),
            environment: self.environment@,
            build: match self.build {
                Some(b) => Some(b@),
                None => None,
            },
            variables: self.variables@,
            dependencies_inherit_configuration: self.dependencies_inherit_configuration,
            dependencies: self.dependencies@,
        }
    }
}

impl View for ApplicationConfig {
    type V = AppModel;

    open spec fn view(&self) -> AppModel {
        AppModel {
            name: self.name@,
            version: self.version@,
            description: self.description@,
            authors: self.authors.deep_view(),
            trigger: match self.trigger {
                Some(t) => Some(
                    match t.redis {
                        Some(r) => Some(r.address@),
                        None => None,
                    },
                ),
                None => None,
            },
        }
    }
}

impl View for SpinConfig {
    type V = SpinModel;

    open spec fn view(&self) -> SpinModel {
        SpinModel {
            spin_manifest_version: self.spin_manifest_version,
            application: self.application@,
            variables: self.variables@,
            component: self.component@,
        }
    }
}

impl View for RouteConfig {
    type V = RouteModel;

    open spec fn view(&self) -> RouteModel {
        match self {
            RouteConfig::Path(p) => RouteModel::Path(p@),
            RouteConfig::Private { private } => RouteModel::Private(*private),
        }
    }
}

impl View for ExecutorConfig {
    type V = ExecutorModel;

    open spec fn view(&self) -> ExecutorModel {
        match self {
            ExecutorConfig::Spin => ExecutorModel::Spin,
            ExecutorConfig::Wagi { argv, entrypoint } => ExecutorModel::Wagi(
                argv.deep_view(),
                entrypoint.deep_view(),
            ),
        }
    }
}

impl View for HttpTrigger {
    type V = HttpTriggerModel;

    open spec fn view(&self) -> HttpTriggerModel {
        HttpTriggerModel {
            route: self.route@,
            component: self.component@,
            executor: match self.executor {
                Some(e) => Some(e@),
                None => None,
            },
        }
    }
}

impl View for RedisTrigger {
    type V = RedisTriggerModel;

    open spec fn view(&self) -> RedisTriggerModel {
        RedisTriggerModel {
            address: self.address.deep_view(),
            channel: self.channel@,
            component: self.component@,
        }
    }
}

impl View for TriggerConfig {
    type V = TriggersModel;

    open spec fn view(&self) -> TriggersModel {
        TriggersModel { http: views(self.http@), redis: views(self.redis@) }
    }
}

// ---------------------------------------------------------------------------
// Construction
// ---------------------------------------------------------------------------

/// The manifest format version written by this library.
pub const SPIN_MANIFEST_VERSION: i64 = 2;

impl SpinConfig {
    /// A manifest for application `name`: format version 2, version `0.1.0`,
    /// no description, authors, trigger settings, variables or components.
    pub fn new(name: String) -> (r: SpinConfig)
        ensures
            r@.spin_manifest_version == 2,
            r@.application.name == name@,
            r@.application.version == "0.1.0"@,
            r@.application.description == Seq::<char>::empty(),
            r@.application.authors == Seq::<Seq<char>>::empty(),
            r@.application.trigger is None,
            r@.variables == Seq::<(Seq<char>, SpinVarModel)>::empty(),
            r@.component == Seq::<(Seq<char>, SpinComponentModel)>::empty(),
    {
        let authors: Vec<String> = Vec::new();
        assert(authors.deep_view() =~= Seq::<Seq<char>>::empty());
        SpinConfig {
            spin_manifest_version: SPIN_MANIFEST_VERSION,
            application: ApplicationConfig {
                name,
                version: crate::ftl_config::default_version(),
                description: String::new(),
                authors,
                trigger: None,
            },
            variables: StrMap::new(),
            component: StrMap::new(),
        }
    }
}

} // verus!
