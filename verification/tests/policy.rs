use port_forward_policy::settings::Settings;
use port_forward_policy::validator::{evaluate, protocol_version, AdmissionRequest, Verdict};

fn request(kind: &str, dry_run: bool, username: &str, name: &str, namespace: &str) -> AdmissionRequest {
    AdmissionRequest {
        kind: kind.to_string(),
        dry_run,
        username: username.to_string(),
        name: name.to_string(),
        namespace: namespace.to_string(),
    }
}

fn names(values: &[&str]) -> Option<Vec<String>> {
    Some(values.iter().map(|v| v.to_string()).collect())
}

fn is_accept(verdict: &Verdict) -> bool {
    matches!(verdict, Verdict::Accept)
}

#[test]
fn accept_connect_with_exemption() {
    let settings = Settings {
        exempt_usernames: names(&["kubernetes-admin"]),
        exempt_pod_names: names(&["nginx"]),
        exempt_namespaces: names(&["default"]),
    };
    let req = request("PodPortForwardOptions", false, "kubernetes-admin", "nginx", "default");
    let verdict = evaluate(&req, &settings);
    assert!(is_accept(&verdict));
}

#[test]
fn other_kind_accepted() {
    let settings = Settings {
        exempt_usernames: names(&["alice"]),
        exempt_pod_names: names(&["nginx"]),
        exempt_namespaces: names(&["default"]),
    };
    let req = request("Pod", false, "bob", "nginx", "default");
    assert!(is_accept(&evaluate(&req, &settings)));
}

#[test]
fn dry_run_accepted() {
    let settings = Settings::default();
    let req = request("PodPortForwardOptions", true, "alice", "nginx", "default");
    assert!(is_accept(&evaluate(&req, &settings)));
}

#[test]
fn all_dimensions_must_pass() {
    let settings = Settings {
        exempt_usernames: names(&["alice"]),
        exempt_pod_names: names(&["nginx"]),
        exempt_namespaces: names(&["default"]),
    };
    let req = request("PodPortForwardOptions", false, "bob", "nginx", "default");
    match evaluate(&req, &settings) {
        Verdict::Accept => panic!("a request failing one dimension must be rejected"),
        Verdict::Reject { message, code } => {
            let message = message.expect("a rejection carries an explanation");
            assert_eq!(message, "The 'port-forward' is on the deny kubectl sub-command list");
            assert!(message.contains("port-forward"));
            assert!(message.contains("deny"));
            assert!(code.is_none());
        }
    }
}

#[test]
fn exemption_monotonic_on_nonempty_sets() {
    let narrow = Settings {
        exempt_usernames: names(&["alice"]),
        exempt_pod_names: None,
        exempt_namespaces: None,
    };
    let wide = Settings {
        exempt_usernames: names(&["alice", "bob"]),
        exempt_pod_names: None,
        exempt_namespaces: None,
    };
    let bob = "bob".to_string();
    let alice = "alice".to_string();
    let nginx = "nginx".to_string();
    let default_ns = "default".to_string();
    // bob only becomes exempt through the added entry ...
    assert!(!narrow.exempt(&bob, &nginx, &default_ns));
    assert!(wide.exempt(&bob, &nginx, &default_ns));
    // ... and nobody exempt before loses the exemption.
    assert!(narrow.exempt(&alice, &nginx, &default_ns));
    assert!(wide.exempt(&alice, &nginx, &default_ns));
}

#[test]
fn absent_set_equals_empty_set() {
    let absent = Settings {
        exempt_usernames: None,
        exempt_pod_names: names(&["nginx"]),
        exempt_namespaces: None,
    };
    let empty = Settings {
        exempt_usernames: names(&[]),
        exempt_pod_names: names(&["nginx"]),
        exempt_namespaces: names(&[]),
    };
    for (user, pod, ns) in [
        ("alice", "nginx", "default"),
        ("bob", "redis", "kube-system"),
    ] {
        let user = user.to_string();
        let pod = pod.to_string();
        let ns = ns.to_string();
        assert_eq!(absent.exempt(&user, &pod, &ns), empty.exempt(&user, &pod, &ns));
    }
}

#[test]
fn reject_connect() {
    // With no exemption set configured, no exemption is possible, so a
    // watched-kind request that is no dry run is rejected.
    let settings = Settings::default();
    let req = request("PodPortForwardOptions", false, "kubernetes-admin", "nginx", "default");
    assert!(!settings.exempt(&req.username, &req.name, &req.namespace));
    match evaluate(&req, &settings) {
        Verdict::Accept => panic!("nothing configured grants no exemption"),
        Verdict::Reject { message, code } => {
            let message = message.expect("a rejection carries an explanation");
            assert_eq!(message, "The 'port-forward' is on the deny kubectl sub-command list");
            assert!(code.is_none());
        }
    }
}

#[test]
fn settings_always_valid() {
    let configured = Settings {
        exempt_usernames: names(&["alice"]),
        exempt_pod_names: None,
        exempt_namespaces: names(&[]),
    };
    assert!(Settings::default().validate().is_ok());
    assert!(configured.validate().is_ok());
}

#[test]
fn protocol_version_is_fixed() {
    assert_eq!(protocol_version(), "v1");
}
