//! The provider selector: which single configuration source a proxy watches.
//!
//! `Providers` is the configuration as it was given, one flag per source.
//! `Providers::select` checks the rules that tie the flags together and picks
//! the one `ProviderConfig` that is active. A broken rule is reported, never
//! mended. The rules are checked in the order of the first five variants of
//! `ConfigError`, and the first broken one is the error. Nothing hands out a
//! provider for a configuration that breaks a rule.
//!
//! Of the sources, Agones comes before plain Kubernetes, both come before the
//! filesystem, and with no flag set the configuration is static.

use crate::policy::RetryPolicy;
use crate::supervisor::Supervisor;
use vstd::prelude::*;

verus! {

/// The kind of IP address that an address filter lets through.
#[derive(Clone, Copy, Debug, PartialEq, Eq, Structural)]
pub enum AddrKind {
    /// Either kind.
    Any,
    /// IPv4 only.
    Ipv4,
    /// IPv6 only.
    Ipv6,
}

/// A filter on the addresses of a game server.
#[derive(Clone, Debug, PartialEq, Eq)]
pub struct AddressSelector {
    /// The address type to keep.
    pub name: String,
    /// The IP kind to keep.
    pub kind: AddrKind,
}

/// What an `AddressSelector` stands for.
pub struct AddressSelectorView {
    pub name: Seq<char>,
    pub kind: AddrKind,
}

impl View for AddressSelector {
    type V = AddressSelectorView;

    open spec fn view(&self) -> AddressSelectorView {
        AddressSelectorView { name: self.name@, kind: self.kind }
    }
}

/// The active provider and its parameters.
#[derive(Clone, Debug, PartialEq, Eq)]
pub enum ProviderConfig {
    /// Watch the resources of a Kubernetes namespace.
    KubernetesWatch { namespace: String },
    /// Watch the allocated game servers of an Agones namespace.
    AgonesWatch { namespace: String, address_filter: Option<AddressSelector> },
    /// Watch a file.
    FilesystemWatch { path: String },
    /// Nothing is watched, and the source always counts as healthy.
    Static,
}

/// What a `ProviderConfig` stands for.
pub enum ProviderView {
    KubernetesWatch { namespace: Seq<char> },
    AgonesWatch { namespace: Seq<char>, address_filter: Option<AddressSelectorView> },
    FilesystemWatch { path: Seq<char> },
    Static,
}

impl View for ProviderConfig {
    type V = ProviderView;

    open spec fn view(&self) -> ProviderView {
        match *self {
            ProviderConfig::KubernetesWatch { namespace } => ProviderView::KubernetesWatch {
                namespace: namespace@,
            },
            ProviderConfig::AgonesWatch { namespace, address_filter } => ProviderView::AgonesWatch {
                namespace: namespace@,
                address_filter: match address_filter {
                    Some(f) => Some(f@),
                    None => None,
                },
            },
            ProviderConfig::FilesystemWatch { path } => ProviderView::FilesystemWatch { path: path@ },
            ProviderConfig::Static => ProviderView::Static,
        }
    }
}

impl ProviderConfig {
    /// Whether a task is supervised for this provider. None is for `Static`.
    pub fn is_watched(&self) -> (b: bool)
        ensures
            b == !(self@ is Static),
    {
        match self {
            ProviderConfig::Static => false,
            _ => true,
        }
    }
}

/// The rule that a configuration breaks.
#[derive(Clone, Copy, Debug, PartialEq, Eq, Structural)]
pub enum ConfigError {
    /// A Kubernetes or Agones watch is asked for together with a filesystem
    /// watch.
    ConflictingProviders,
    /// An address type is given, but the Agones watch is not enabled.
    AddressTypeWithoutAgones,
    /// An IP kind is given without an address type.
    IpKindWithoutAddressType,
    /// The filesystem watch is enabled with an empty path.
    UnresolvablePath,
    /// Tokens are to be assigned to a static destination list that is empty.
    TokensWithoutDestinations,
    /// A watch of the Kubernetes family is asked for, but neither the
    /// Kubernetes nor the Agones watch is enabled. No rule is broken; there is
    /// just no such watch to start.
    NoClusterProvider,
}

/// The provider configuration as given.
#[derive(Clone, Debug, PartialEq, Eq)]
pub struct Providers {
    /// Watch a Kubernetes namespace.
    pub k8s_enabled: bool,
    /// The Kubernetes namespace.
    pub k8s_namespace: String,
    /// Watch the game servers of Agones.
    pub agones_enabled: bool,
    /// The Agones namespace.
    pub agones_namespace: String,
    /// Keeps only the game server addresses of this type.
    pub address_type: Option<String>,
    /// Keeps only the addresses of this IP kind.
    pub ip_kind: Option<AddrKind>,
    /// Watch a file.
    pub fs_enabled: bool,
    /// The file to watch. Without one, `default_fs_path()` is watched.
    pub fs_path: Option<String>,
    /// The relay endpoints that configuration changes are pushed to.
    pub relay: Vec<String>,
    /// Where the geo-IP database comes from.
    pub mmdb: Option<String>,
    /// The static destinations.
    pub to: Vec<String>,
    /// How tokens are assigned to the static destinations.
    pub to_tokens: Option<String>,
}

/// The texts of a list, in order.
pub open spec fn texts(list: Seq<String>) -> Seq<Seq<char>> {
    Seq::new(list.len(), |i: int| list[i]@)
}

/// What a `Providers` stands for.
pub struct ProvidersView {
    pub k8s_enabled: bool,
    pub k8s_namespace: Seq<char>,
    pub agones_enabled: bool,
    pub agones_namespace: Seq<char>,
    pub address_type: Option<Seq<char>>,
    pub ip_kind: Option<AddrKind>,
    pub fs_enabled: bool,
    pub fs_path: Option<Seq<char>>,
    pub relay: Seq<Seq<char>>,
    pub mmdb: Option<Seq<char>>,
    pub to: Seq<Seq<char>>,
    pub to_tokens: Option<Seq<char>>,
}

impl View for Providers {
    type V = ProvidersView;

    open spec fn view(&self) -> ProvidersView {
        ProvidersView {
            k8s_enabled: self.k8s_enabled,
            k8s_namespace: self.k8s_namespace@,
            agones_enabled: self.agones_enabled,
            agones_namespace: self.agones_namespace@,
            address_type: match self.address_type {
                Some(t) => Some(t@),
                None => None,
            },
            ip_kind: self.ip_kind,
            fs_enabled: self.fs_enabled,
            fs_path: match self.fs_path {
                Some(p) => Some(p@),
                None => None,
            },
            relay: texts(self.relay@),
            mmdb: match self.mmdb {
                Some(m) => Some(m@),
                None => None,
            },
            to: texts(self.to@),
            to_tokens: match self.to_tokens {
                Some(t) => Some(t@),
                None => None,
            },
        }
    }
}

/// The namespace that is watched when none is named.
pub open spec fn default_namespace_view() -> Seq<char> {
    "default"@
}

/// The namespace that is watched when none is named.
pub fn default_namespace() -> (namespace: String)
    ensures
        namespace@ == default_namespace_view(),
{
    "default".to_owned()
}

impl Default for Providers {
    /// The configuration when nothing was given: no watch is enabled, both
    /// namespaces are the default one, and every list is empty.
    fn default() -> (p: Providers)
        ensures
            p@ == (ProvidersView {
                k8s_enabled: false,
                k8s_namespace: default_namespace_view(),
                agones_enabled: false,
                agones_namespace: default_namespace_view(),
                address_type: None,
                ip_kind: None,
                fs_enabled: false,
                fs_path: None,
                relay: Seq::empty(),
                mmdb: None,
                to: Seq::empty(),
                to_tokens: None,
            }),
    {
        let relay: Vec<String> = Vec::new();
        let to: Vec<String> = Vec::new();
        assert(texts(relay@) =~= Seq::<Seq<char>>::empty());
        assert(texts(to@) =~= Seq::<Seq<char>>::empty());
        Providers {
            k8s_enabled: false,
            k8s_namespace: default_namespace(),
            agones_enabled: false,
            agones_namespace: default_namespace(),
            address_type: None,
            ip_kind: None,
            fs_enabled: false,
            fs_path: None,
            relay,
            mmdb: None,
            to,
            to_tokens: None,
        }
    }
}

/// The file that is watched when none is named.
pub open spec fn default_fs_path_view() -> Seq<char> {
    "/etc/quilkin/config.yaml"@
}

/// The file that is watched when none is named.
pub fn default_fs_path() -> (path: String)
    ensures
        path@ == default_fs_path_view(),
{
    "/etc/quilkin/config.yaml".to_owned()
}

impl ProvidersView {
    /// Whether a watch of the Kubernetes family is enabled.
    pub open spec fn cluster_enabled(&self) -> bool {
        self.k8s_enabled || self.agones_enabled
    }

    /// The first rule that the configuration breaks, if it breaks one.
    pub open spec fn violation(&self) -> Option<ConfigError> {
        if self.cluster_enabled() && self.fs_enabled {
            Some(ConfigError::ConflictingProviders)
        } else if self.address_type is Some && !self.agones_enabled {
            Some(ConfigError::AddressTypeWithoutAgones)
        } else if self.ip_kind is Some && self.address_type is None {
            Some(ConfigError::IpKindWithoutAddressType)
        } else if self.fs_enabled && self.fs_path == Some(Seq::<char>::empty()) {
            Some(ConfigError::UnresolvablePath)
        } else if self.to_tokens is Some && self.to.len() == 0 {
            Some(ConfigError::TokensWithoutDestinations)
        } else {
            None
        }
    }

    /// The address filter: the address type, with the IP kind where one is
    /// given and any kind where none is.
    pub open spec fn address_filter(&self) -> Option<AddressSelectorView> {
        match self.address_type {
            Some(name) => Some(
                AddressSelectorView {
                    name,
                    kind: match self.ip_kind {
                        Some(kind) => kind,
                        None => AddrKind::Any,
                    },
                },
            ),
            None => None,
        }
    }

    /// The watch of the Kubernetes family: Agones where it is enabled, else
    /// the Kubernetes namespace.
    pub open spec fn cluster_watch(&self) -> ProviderView {
        if self.agones_enabled {
            ProviderView::AgonesWatch {
                namespace: self.agones_namespace,
                address_filter: self.address_filter(),
            }
        } else {
            ProviderView::KubernetesWatch { namespace: self.k8s_namespace }
        }
    }

    /// The provider that the flags pick, rules aside.
    pub open spec fn chosen(&self) -> ProviderView {
        if self.cluster_enabled() {
            self.cluster_watch()
        } else if self.fs_enabled {
            ProviderView::FilesystemWatch {
                path: match self.fs_path {
                    Some(p) => p,
                    None => default_fs_path_view(),
                },
            }
        } else {
            ProviderView::Static
        }
    }

    /// The active provider, or the first broken rule.
    pub open spec fn selected(&self) -> Result<ProviderView, ConfigError> {
        match self.violation() {
            Some(e) => Err(e),
            None => Ok(self.chosen()),
        }
    }

    /// The watch of the Kubernetes family as it may be started: the first
    /// broken rule where one is broken, no watch where none of the family is
    /// enabled, and else the watch.
    pub open spec fn cluster_selected(&self) -> Result<ProviderView, ConfigError> {
        match self.violation() {
            Some(e) => Err(e),
            None => if self.cluster_enabled() {
                Ok(self.cluster_watch())
            } else {
                Err(ConfigError::NoClusterProvider)
            },
        }
    }
}

/// What is to be started for a configuration.
#[derive(Clone, Debug, PartialEq, Eq)]
pub struct Launch {
    /// The active provider.
    pub provider: ProviderConfig,
    /// The supervision of its watch task. A static provider has none.
    pub supervisor: Option<Supervisor>,
}

impl Providers {
    /// Checks the rules, and reports the first that is broken.
    pub fn validate(&self) -> (r: Result<(), ConfigError>)
        ensures
            r == match self@.violation() {
                Some(e) => Err::<(), ConfigError>(e),
                None => Ok(()),
            },
    {
        if (self.k8s_enabled || self.agones_enabled) && self.fs_enabled {
            return Err(ConfigError::ConflictingProviders);
        }
        if self.address_type.is_some() && !self.agones_enabled {
            return Err(ConfigError::AddressTypeWithoutAgones);
        }
        if self.ip_kind.is_some() && self.address_type.is_none() {
            return Err(ConfigError::IpKindWithoutAddressType);
        }
        if self.fs_enabled {
            match &self.fs_path {
                Some(p) => {
                    if p.as_str().is_empty() {
                        assert(p@ =~= Seq::<char>::empty());
                        return Err(ConfigError::UnresolvablePath);
                    }
                },
                None => {},
            }
        }
        if self.to_tokens.is_some() && self.to.len() == 0 {
            return Err(ConfigError::TokensWithoutDestinations);
        }
        Ok(())
    }

    /// The watch of the Kubernetes family that the flags describe, rules
    /// aside: Agones with the address filter where it is enabled, else the
    /// Kubernetes namespace.
    fn cluster_watch_of(&self) -> (watch: ProviderConfig)
        ensures
            watch@ == self@.cluster_watch(),
    {
        if self.agones_enabled {
            let address_filter = match &self.address_type {
                Some(name) => Some(
                    AddressSelector {
                        name: name.clone(),
                        kind: match self.ip_kind {
                            Some(kind) => kind,
                            None => AddrKind::Any,
                        },
                    },
                ),
                None => None,
            };
            ProviderConfig::AgonesWatch { namespace: self.agones_namespace.clone(), address_filter }
        } else {
            ProviderConfig::KubernetesWatch { namespace: self.k8s_namespace.clone() }
        }
    }

    /// Checks the rules and gives the watch of the Kubernetes family to
    /// start: the Agones namespace with the address filter where Agones is
    /// enabled, else the Kubernetes namespace. A configuration that breaks a
    /// rule gets that error and no watch, and so does one that enables
    /// neither watch of the family.
    pub fn spawn_k8s_provider(&self) -> (r: Result<ProviderConfig, ConfigError>)
        ensures
            match r {
                Ok(watch) => self@.cluster_selected() == Ok::<ProviderView, ConfigError>(watch@),
                Err(e) => self@.cluster_selected() == Err::<ProviderView, ConfigError>(e),
            },
    {
        match self.validate() {
            Err(e) => Err(e),
            Ok(_) => {
                if self.k8s_enabled || self.agones_enabled {
                    Ok(self.cluster_watch_of())
                } else {
                    Err(ConfigError::NoClusterProvider)
                }
            },
        }
    }

    /// Checks the rules and picks the active provider.
    pub fn select(&self) -> (r: Result<ProviderConfig, ConfigError>)
        ensures
            match r {
                Ok(c) => self@.selected() == Ok::<ProviderView, ConfigError>(c@),
                Err(e) => self@.selected() == Err::<ProviderView, ConfigError>(e),
            },
    {
        match self.validate() {
            Err(e) => Err(e),
            Ok(_) => {
                if self.k8s_enabled || self.agones_enabled {
                    Ok(self.cluster_watch_of())
                } else if self.fs_enabled {
                    let path = match &self.fs_path {
                        Some(p) => p.clone(),
                        None => default_fs_path(),
                    };
                    Ok(ProviderConfig::FilesystemWatch { path })
                } else {
                    Ok(ProviderConfig::Static)
                }
            },
        }
    }

    /// Starts the supervision of one provider task, under the standard
    /// policy.
    pub fn task() -> (s: Supervisor)
        ensures
            s == Supervisor::initial(
                RetryPolicy {
                    max_attempts: crate::policy::RETRIES,
                    backoff_step: crate::policy::BACKOFF_STEP,
                    max_delay: crate::policy::MAX_DELAY,
                },
            ),
            s.wf(),
    {
        Supervisor::start(RetryPolicy::standard())
    }

    /// Decides what is started for this configuration: the active provider,
    /// and the supervision of its watch task unless the provider is static.
    /// Nothing is started for a configuration that breaks a rule.
    pub fn spawn(self) -> (r: Result<Launch, ConfigError>)
        ensures
            match r {
                Ok(launch) => {
                    &&& self@.selected() == Ok::<ProviderView, ConfigError>(launch.provider@)
                    &&& launch.supervisor == if launch.provider@ is Static {
                        None
                    } else {
                        Some(Supervisor::initial(RetryPolicy {
                            max_attempts: crate::policy::RETRIES,
                            backoff_step: crate::policy::BACKOFF_STEP,
                            max_delay: crate::policy::MAX_DELAY,
                        }))
                    }
                },
                Err(e) => self@.selected() == Err::<ProviderView, ConfigError>(e),
            },
    {
        match self.select() {
            Err(e) => Err(e),
            Ok(provider) => {
                let supervisor = if provider.is_watched() {
                    Some(Self::task())
                } else {
                    None
                };
                Ok(Launch { provider, supervisor })
            },
        }
    }
}

/// A configuration that enables a watch of the Kubernetes family together
/// with the filesystem watch is rejected, whichever provider is asked for.
pub proof fn lemma_rejects_cluster_with_filesystem(p: ProvidersView)
    requires
        p.k8s_enabled || p.agones_enabled,
        p.fs_enabled,
    ensures
        p.selected() == Err::<ProviderView, ConfigError>(ConfigError::ConflictingProviders),
        p.cluster_selected() == Err::<ProviderView, ConfigError>(
            ConfigError::ConflictingProviders,
        ),
{
}

/// A configuration with an address type but without the Agones watch is
/// rejected, whichever provider is asked for: the filter is never dropped.
pub proof fn lemma_rejects_address_type_without_agones(p: ProvidersView)
    requires
        p.address_type is Some,
        !p.agones_enabled,
    ensures
        p.violation() == Some(ConfigError::ConflictingProviders) || p.violation() == Some(
            ConfigError::AddressTypeWithoutAgones,
        ),
        p.selected() == Err::<ProviderView, ConfigError>(p.violation()->Some_0),
        p.cluster_selected() == Err::<ProviderView, ConfigError>(p.violation()->Some_0),
{
}

/// A configuration with an IP kind but without an address type is rejected,
/// whichever provider is asked for: the IP kind is never dropped.
pub proof fn lemma_rejects_ip_kind_without_address_type(p: ProvidersView)
    requires
        p.ip_kind is Some,
        p.address_type is None,
    ensures
        p.violation() == Some(ConfigError::ConflictingProviders) || p.violation() == Some(
            ConfigError::IpKindWithoutAddressType,
        ),
        p.selected() == Err::<ProviderView, ConfigError>(p.violation()->Some_0),
        p.cluster_selected() == Err::<ProviderView, ConfigError>(p.violation()->Some_0),
{
}

/// A configuration is accepted exactly when it keeps all five rules, and then
/// the provider follows the order Agones, Kubernetes, filesystem, static.
pub proof fn lemma_selection(p: ProvidersView)
    ensures
        p.selected() is Ok <==> {
            &&& !(p.cluster_enabled() && p.fs_enabled)
            &&& (p.address_type is Some ==> p.agones_enabled)
            &&& (p.ip_kind is Some ==> p.address_type is Some)
            &&& (p.fs_enabled ==> p.fs_path != Some(Seq::<char>::empty()))
            &&& (p.to_tokens is Some ==> p.to.len() > 0)
        },
        p.selected() is Ok ==> {
            &&& (p.selected()->Ok_0 is AgonesWatch <==> p.agones_enabled)
            &&& (p.selected()->Ok_0 is KubernetesWatch <==> p.k8s_enabled && !p.agones_enabled)
            &&& (p.selected()->Ok_0 is FilesystemWatch <==> p.fs_enabled)
            &&& (p.selected()->Ok_0 is Static <==> !p.k8s_enabled && !p.agones_enabled
                && !p.fs_enabled)
        },
{
}

/// A watch of the Kubernetes family is handed out exactly when the
/// configuration is accepted and enables one, and it is then the active
/// provider. A rejected configuration gets the same error from both.
pub proof fn lemma_cluster_selection(p: ProvidersView)
    ensures
        p.cluster_selected() is Ok <==> p.selected() is Ok && p.cluster_enabled(),
        p.cluster_selected() is Ok ==> p.cluster_selected() == p.selected(),
        p.selected() is Err ==> p.cluster_selected() == p.selected(),
        p.selected() is Err ==> p.selected()->Err_0 != ConfigError::NoClusterProvider,
{
}

} // verus!
