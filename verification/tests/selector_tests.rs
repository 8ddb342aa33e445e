use providers::policy::RetryPolicy;
use providers::selector::{
    default_fs_path, default_namespace, AddrKind, AddressSelector, ConfigError, Launch,
    ProviderConfig, Providers,
};
use providers::supervisor::Supervisor;

fn text(s: &str) -> String {
    String::from(s)
}

#[test]
fn defaults_are_as_documented() {
    let p = Providers::default();
    assert!(!p.k8s_enabled && !p.agones_enabled && !p.fs_enabled);
    assert_eq!(p.k8s_namespace, "default");
    assert_eq!(p.agones_namespace, "default");
    assert_eq!(p.address_type, None);
    assert_eq!(p.ip_kind, None);
    assert_eq!(p.fs_path, None);
    assert!(p.relay.is_empty() && p.to.is_empty());
    assert_eq!(p.mmdb, None);
    assert_eq!(p.to_tokens, None);
    assert_eq!(default_namespace(), "default");
    assert_eq!(default_fs_path(), "/etc/quilkin/config.yaml");
}

#[test]
fn nothing_enabled_is_static() {
    let p = Providers::default();
    assert_eq!(p.validate(), Ok(()));
    assert_eq!(p.select(), Ok(ProviderConfig::Static));
    assert_eq!(p.spawn(), Ok(Launch { provider: ProviderConfig::Static, supervisor: None }));
}

#[test]
fn kubernetes_watch_takes_its_namespace() {
    let p = Providers { k8s_enabled: true, k8s_namespace: text("games"), ..Providers::default() };
    assert_eq!(p.select(), Ok(ProviderConfig::KubernetesWatch { namespace: text("games") }));
    assert_eq!(
        p.spawn_k8s_provider(),
        Ok(ProviderConfig::KubernetesWatch { namespace: text("games") })
    );
}

#[test]
fn agones_watch_without_filter() {
    let p = Providers {
        agones_enabled: true,
        agones_namespace: text("fleet"),
        ..Providers::default()
    };
    assert_eq!(
        p.select(),
        Ok(ProviderConfig::AgonesWatch { namespace: text("fleet"), address_filter: None })
    );
}

#[test]
fn agones_filter_defaults_to_any_kind() {
    let p = Providers {
        agones_enabled: true,
        address_type: Some(text("ExternalDNS")),
        ..Providers::default()
    };
    assert_eq!(
        p.select(),
        Ok(ProviderConfig::AgonesWatch {
            namespace: text("default"),
            address_filter: Some(AddressSelector { name: text("ExternalDNS"), kind: AddrKind::Any }),
        })
    );
}

#[test]
fn agones_filter_takes_the_ip_kind() {
    let p = Providers {
        agones_enabled: true,
        address_type: Some(text("PodIP")),
        ip_kind: Some(AddrKind::Ipv6),
        ..Providers::default()
    };
    assert_eq!(
        p.spawn_k8s_provider(),
        Ok(ProviderConfig::AgonesWatch {
            namespace: text("default"),
            address_filter: Some(AddressSelector { name: text("PodIP"), kind: AddrKind::Ipv6 }),
        })
    );
    assert_eq!(p.select(), p.spawn_k8s_provider());
}

#[test]
fn agones_comes_before_kubernetes() {
    let p = Providers {
        k8s_enabled: true,
        k8s_namespace: text("config"),
        agones_enabled: true,
        agones_namespace: text("fleet"),
        ..Providers::default()
    };
    assert_eq!(
        p.select(),
        Ok(ProviderConfig::AgonesWatch { namespace: text("fleet"), address_filter: None })
    );
}

#[test]
fn filesystem_watch_uses_the_default_path() {
    let p = Providers { fs_enabled: true, ..Providers::default() };
    assert_eq!(
        p.select(),
        Ok(ProviderConfig::FilesystemWatch { path: text("/etc/quilkin/config.yaml") })
    );
}

#[test]
fn filesystem_watch_takes_the_given_path() {
    let p = Providers { fs_enabled: true, fs_path: Some(text("/tmp/proxy.yaml")), ..Providers::default() };
    assert_eq!(p.select(), Ok(ProviderConfig::FilesystemWatch { path: text("/tmp/proxy.yaml") }));
}

#[test]
fn path_is_ignored_without_the_filesystem_watch() {
    let p = Providers { fs_path: Some(text("")), ..Providers::default() };
    assert_eq!(p.select(), Ok(ProviderConfig::Static));
}

#[test]
fn rejects_kubernetes_with_filesystem() {
    let p = Providers { k8s_enabled: true, fs_enabled: true, ..Providers::default() };
    assert_eq!(p.validate(), Err(ConfigError::ConflictingProviders));
    assert_eq!(p.select(), Err(ConfigError::ConflictingProviders));
    assert_eq!(p.spawn(), Err(ConfigError::ConflictingProviders));
}

#[test]
fn rejects_agones_with_filesystem() {
    let p = Providers { agones_enabled: true, fs_enabled: true, ..Providers::default() };
    assert_eq!(p.select(), Err(ConfigError::ConflictingProviders));
}

#[test]
fn rejects_address_type_without_agones() {
    let p = Providers { address_type: Some(text("PodIP")), ..Providers::default() };
    assert_eq!(p.select(), Err(ConfigError::AddressTypeWithoutAgones));
    let q = Providers { k8s_enabled: true, address_type: Some(text("PodIP")), ..Providers::default() };
    assert_eq!(q.select(), Err(ConfigError::AddressTypeWithoutAgones));
}

#[test]
fn rejects_ip_kind_without_address_type() {
    let p = Providers { agones_enabled: true, ip_kind: Some(AddrKind::Ipv4), ..Providers::default() };
    assert_eq!(p.select(), Err(ConfigError::IpKindWithoutAddressType));
    let q = Providers { ip_kind: Some(AddrKind::Any), ..Providers::default() };
    assert_eq!(q.select(), Err(ConfigError::IpKindWithoutAddressType));
}

#[test]
fn rejects_an_empty_path() {
    let p = Providers { fs_enabled: true, fs_path: Some(text("")), ..Providers::default() };
    assert_eq!(p.select(), Err(ConfigError::UnresolvablePath));
}

#[test]
fn rejects_tokens_without_destinations() {
    let p = Providers { to_tokens: Some(text("3:8")), ..Providers::default() };
    assert_eq!(p.select(), Err(ConfigError::TokensWithoutDestinations));
    let q = Providers {
        to_tokens: Some(text("3:8")),
        to: vec![text("127.0.0.1:7777")],
        ..Providers::default()
    };
    assert_eq!(q.select(), Ok(ProviderConfig::Static));
}

#[test]
fn first_broken_rule_is_reported() {
    let all = Providers {
        k8s_enabled: true,
        fs_enabled: true,
        fs_path: Some(text("")),
        address_type: None,
        ip_kind: Some(AddrKind::Ipv4),
        to_tokens: Some(text("1:1")),
        ..Providers::default()
    };
    assert_eq!(all.validate(), Err(ConfigError::ConflictingProviders));
    let no_conflict = Providers { k8s_enabled: false, ..all.clone() };
    assert_eq!(no_conflict.validate(), Err(ConfigError::IpKindWithoutAddressType));
    let with_type = Providers { address_type: Some(text("PodIP")), ..no_conflict.clone() };
    assert_eq!(with_type.validate(), Err(ConfigError::AddressTypeWithoutAgones));
    let no_filter = Providers { ip_kind: None, ..no_conflict.clone() };
    assert_eq!(no_filter.validate(), Err(ConfigError::UnresolvablePath));
    let with_path = Providers { fs_path: None, ..no_filter.clone() };
    assert_eq!(with_path.validate(), Err(ConfigError::TokensWithoutDestinations));
}

#[test]
fn auxiliary_fields_pass_through_validation() {
    let p = Providers {
        relay: vec![text("http://relay:7900")],
        mmdb: Some(text("/var/lib/geo.mmdb")),
        to: vec![text("10.0.0.1:7777"), text("10.0.0.2:7777")],
        to_tokens: Some(text("2:4")),
        ..Providers::default()
    };
    let before = p.clone();
    assert_eq!(p.validate(), Ok(()));
    assert_eq!(p.select(), Ok(ProviderConfig::Static));
    assert_eq!(p, before);
}

#[test]
fn watched_provider_is_launched_with_a_supervisor() {
    let p = Providers { fs_enabled: true, ..Providers::default() };
    let launch = p.spawn().unwrap();
    assert_eq!(launch.provider, ProviderConfig::FilesystemWatch { path: text("/etc/quilkin/config.yaml") });
    assert_eq!(launch.supervisor, Some(Supervisor::start(RetryPolicy::standard())));
    assert!(launch.provider.is_watched());
    assert!(!ProviderConfig::Static.is_watched());
}

#[test]
fn cluster_watch_rejects_address_type_without_agones() {
    let p = Providers { address_type: Some(text("PodIP")), ..Providers::default() };
    assert_eq!(p.spawn_k8s_provider(), Err(ConfigError::AddressTypeWithoutAgones));
    let q = Providers { k8s_enabled: true, address_type: Some(text("PodIP")), ..Providers::default() };
    assert_eq!(q.spawn_k8s_provider(), Err(ConfigError::AddressTypeWithoutAgones));
    assert_eq!(q.clone().spawn(), Err(ConfigError::AddressTypeWithoutAgones));
}

#[test]
fn cluster_watch_rejects_ip_kind_without_address_type() {
    let p = Providers { k8s_enabled: true, ip_kind: Some(AddrKind::Ipv4), ..Providers::default() };
    assert_eq!(p.spawn_k8s_provider(), Err(ConfigError::IpKindWithoutAddressType));
    let q = Providers { agones_enabled: true, ip_kind: Some(AddrKind::Ipv6), ..Providers::default() };
    assert_eq!(q.spawn_k8s_provider(), Err(ConfigError::IpKindWithoutAddressType));
    assert_eq!(q.clone().spawn(), Err(ConfigError::IpKindWithoutAddressType));
}

#[test]
fn cluster_watch_rejects_a_conflict_with_the_filesystem() {
    let p = Providers { k8s_enabled: true, fs_enabled: true, ..Providers::default() };
    assert_eq!(p.spawn_k8s_provider(), Err(ConfigError::ConflictingProviders));
    let q = Providers { agones_enabled: true, fs_enabled: true, ..Providers::default() };
    assert_eq!(q.spawn_k8s_provider(), Err(ConfigError::ConflictingProviders));
}

#[test]
fn cluster_watch_rejects_every_broken_rule() {
    let tokens = Providers { k8s_enabled: true, to_tokens: Some(text("1:1")), ..Providers::default() };
    assert_eq!(tokens.spawn_k8s_provider(), Err(ConfigError::TokensWithoutDestinations));
    let path = Providers { fs_enabled: true, fs_path: Some(text("")), ..Providers::default() };
    assert_eq!(path.spawn_k8s_provider(), Err(ConfigError::UnresolvablePath));
}

#[test]
fn cluster_watch_needs_a_cluster_provider() {
    assert_eq!(Providers::default().spawn_k8s_provider(), Err(ConfigError::NoClusterProvider));
    let fs = Providers { fs_enabled: true, ..Providers::default() };
    assert_eq!(fs.spawn_k8s_provider(), Err(ConfigError::NoClusterProvider));
    assert_eq!(fs.validate(), Ok(()));
}

#[test]
fn cluster_watch_is_the_selected_provider() {
    let both = Providers {
        k8s_enabled: true,
        k8s_namespace: text("config"),
        agones_enabled: true,
        agones_namespace: text("fleet"),
        address_type: Some(text("ExternalIP")),
        ..Providers::default()
    };
    let expected = ProviderConfig::AgonesWatch {
        namespace: text("fleet"),
        address_filter: Some(AddressSelector { name: text("ExternalIP"), kind: AddrKind::Any }),
    };
    assert_eq!(both.spawn_k8s_provider(), Ok(expected.clone()));
    assert_eq!(both.select(), Ok(expected));
}
