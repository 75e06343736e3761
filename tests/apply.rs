use kubit_core::apply::{emit_commandline, emit_script, script, KubeEnv};
use kubit_core::error::Error;
use kubit_core::resources::AppInstance;

fn prod_app() -> AppInstance {
    AppInstance {
        namespace: Some("prod".to_string()),
        name: Some("app1".to_string()),
        image: "registry.example.com/pkg:1.0".to_string(),
    }
}

fn no_env() -> KubeEnv {
    KubeEnv { kubeconfig: None, home: None }
}

fn strings(v: &[&str]) -> Vec<String> {
    v.iter().map(|s| s.to_string()).collect()
}

const DIRECT: [&str; 14] = [
    "kubectl",
    "apply",
    "-f",
    "/tmp/manifests",
    "-n",
    "prod",
    "--server-side",
    "--prune",
    "--applyset",
    "app1",
    "--field-manager",
    "kubit-applier",
    "--force-conflicts",
    "-v=2",
];

#[test]
fn direct_strategy_tokens() {
    let cli = emit_commandline(&prod_app(), "/tmp/manifests", &None, false, &no_env()).unwrap();
    assert_eq!(cli, strings(&DIRECT));
}

#[test]
fn impersonation_appends_as_flag() {
    let user = Some("alice".to_string());
    let cli = emit_commandline(&prod_app(), "/tmp/manifests", &user, false, &no_env()).unwrap();
    let mut expected = strings(&DIRECT);
    expected.push("--as=alice".to_string());
    assert_eq!(cli, expected);
}

#[test]
fn no_impersonation_has_no_as_token() {
    let cli = emit_commandline(&prod_app(), "/tmp/manifests", &None, false, &no_env()).unwrap();
    assert!(cli.iter().all(|t| !t.starts_with("--as=")));
    assert_eq!(cli.last().unwrap(), "-v=2");
}

#[test]
fn user_value_stays_one_token() {
    let user = Some("eve; rm -rf /".to_string());
    let cli = emit_commandline(&prod_app(), "/tmp/manifests", &user, false, &no_env()).unwrap();
    assert_eq!(cli.len(), 15);
    assert_eq!(cli[14], "--as=eve; rm -rf /");
}

#[test]
fn containerized_uses_kubeconfig_override() {
    let env = KubeEnv {
        kubeconfig: Some("/etc/kube/admin.conf".to_string()),
        home: Some("/home/user".to_string()),
    };
    let cli = emit_commandline(&prod_app(), "/tmp/manifests", &None, true, &env).unwrap();
    let mut expected = strings(&[
        "docker",
        "run",
        "--rm",
        "-v",
        "/etc/kube/admin.conf:/.kube/config:ro",
        "--env",
        "KUBECTL_APPLYSET=true",
        "--env",
        "KUBECONFIG=/.kube/config",
        "bitnami/kubectl:1.27.5",
    ]);
    expected.extend(strings(&DIRECT[1..]));
    assert_eq!(cli, expected);
}

#[test]
fn containerized_falls_back_to_home() {
    let env = KubeEnv { kubeconfig: None, home: Some("/home/user".to_string()) };
    let cli = emit_commandline(&prod_app(), "/tmp/manifests", &None, true, &env).unwrap();
    assert_eq!(cli[0], "docker");
    assert_eq!(cli[4], "/home/user/.kube/config:/.kube/config:ro");
    assert_eq!(cli.len(), 23);
}

#[test]
fn containerized_without_home_fails() {
    let r = emit_commandline(&prod_app(), "/tmp/manifests", &None, true, &no_env());
    assert_eq!(r, Err(Error::HomeDirectoryUnresolved));
}

#[test]
fn direct_without_home_succeeds() {
    assert!(emit_commandline(&prod_app(), "/tmp/manifests", &None, false, &no_env()).is_ok());
}

#[test]
fn defaults_for_missing_namespace_and_name() {
    let app = AppInstance { namespace: None, name: None, image: "pkg".to_string() };
    let cli = emit_commandline(&app, "", &None, false, &no_env()).unwrap();
    assert_eq!(cli[3], "");
    assert_eq!(cli[5], "default");
    assert_eq!(cli[9], "");
}

#[test]
fn build_is_deterministic() {
    let user = Some("bob".to_string());
    let env = KubeEnv { kubeconfig: None, home: Some("/root".to_string()) };
    let a = script(&prod_app(), "/m", &user, true, &env).unwrap();
    let b = script(&prod_app(), "/m", &user, true, &env).unwrap();
    assert_eq!(a.tokens(), b.tokens());
    assert_eq!(a.render(), b.render());
}

#[test]
fn emitted_script_text() {
    let text = emit_script(&prod_app(), false, &no_env()).unwrap();
    assert_eq!(
        text,
        "kubectl apply -f /tmp/manifests -n prod --server-side --prune --applyset app1 \
         --field-manager kubit-applier --force-conflicts '-v=2'"
    );
}

#[test]
fn emitted_script_containerized_fails_without_home() {
    assert_eq!(emit_script(&prod_app(), true, &no_env()), Err(Error::HomeDirectoryUnresolved));
}
