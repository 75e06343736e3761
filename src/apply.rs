//! The command line that applies a directory of rendered manifests to a cluster.
use vstd::prelude::*;

use crate::error::Error;
use crate::resources::{name_of, namespace_of, AppInstance};
use crate::script::{render_tokens, token_views, Script};

verus! {

/// The field manager that server-side apply records for every applied field.
pub const KUBIT_APPLIER_FIELD_MANAGER: &'static str = "kubit-applier";

/// The directory that `emit_script` applies manifests from.
pub const DEFAULT_MANIFESTS_DIR: &'static str = "/tmp/manifests";

/// What the process environment says about the local kubeconfig, read by the
/// caller and handed in so that resolution stays a pure function.
#[derive(Debug, Clone)]
pub struct KubeEnv {
    /// The `KUBECONFIG` variable, where set.
    pub kubeconfig: Option<String>,
    /// The user's home directory, where known.
    pub home: Option<String>,
}

/// The kubeconfig path: the override where set, else `<home>/.kube/config`;
/// `None` where neither is known.
pub open spec fn kubeconfig_of(env: KubeEnv) -> Option<Seq<char>> {
    match env.kubeconfig {
        Some(k) => Some(k@),
        None => match env.home {
            Some(h) => Some(h@ + "/.kube/config"@),
            None => None,
        },
    }
}

/// The tokens that start the command: a pinned kubectl container that sees the
/// kubeconfig read-only, or the bare kubectl binary.
pub open spec fn runner_tokens(is_local: bool, kube_config: Seq<char>) -> Seq<Seq<char>> {
    if is_local {
        seq![
            "docker"@,
            "run"@,
            "--rm"@,
            "-v"@,
            kube_config + ":/.kube/config:ro"@,
            "--env"@,
            "KUBECTL_APPLYSET=true"@,
            "--env"@,
            "KUBECONFIG=/.kube/config"@,
            "bitnami/kubectl:1.27.5"@,
        ]
    } else {
        seq!["kubectl"@]
    }
}

/// The apply subcommand and its fixed policy flags.
pub open spec fn apply_tokens(manifests_dir: Seq<char>, app: AppInstance) -> Seq<Seq<char>> {
    seq![
        "apply"@,
        "-f"@,
        manifests_dir,
        "-n"@,
        namespace_of(app),
        "--server-side"@,
        "--prune"@,
        "--applyset"@,
        name_of(app),
        "--field-manager"@,
        KUBIT_APPLIER_FIELD_MANAGER@,
        "--force-conflicts"@,
        "-v=2"@,
    ]
}

/// The impersonation flag, present only when a user is given.
pub open spec fn impersonation_tokens(impersonate_user: Option<String>) -> Seq<Seq<char>> {
    match impersonate_user {
        Some(u) => seq!["--as="@ + u@],
        None => Seq::empty(),
    }
}

/// The full command line for the given inputs and kubeconfig path.
pub open spec fn commandline(
    app: AppInstance,
    manifests_dir: Seq<char>,
    impersonate_user: Option<String>,
    is_local: bool,
    kube_config: Seq<char>,
) -> Seq<Seq<char>> {
    runner_tokens(is_local, kube_config) + apply_tokens(manifests_dir, app)
        + impersonation_tokens(impersonate_user)
}

/// Whether the command can be built: only the containerized runner needs a
/// kubeconfig path.
pub open spec fn can_build(is_local: bool, env: KubeEnv) -> bool {
    !is_local || kubeconfig_of(env) is Some
}

/// The command line that `emit_commandline` builds where `can_build` holds.
pub open spec fn commandline_in(
    app: AppInstance,
    manifests_dir: Seq<char>,
    impersonate_user: Option<String>,
    is_local: bool,
    env: KubeEnv,
) -> Seq<Seq<char>> {
    let kube_config = match kubeconfig_of(env) {
        Some(k) => k,
        None => Seq::empty(),
    };
    commandline(app, manifests_dir, impersonate_user, is_local, kube_config)
}

/// Resolves the local kubeconfig path.
pub fn kubeconfig_path(env: &KubeEnv) -> (r: Result<String, Error>)
    ensures
        match r {
            Ok(p) => kubeconfig_of(*env) == Some(p@),
            Err(e) => kubeconfig_of(*env) is None && e == Error::HomeDirectoryUnresolved,
        },
{
    match &env.kubeconfig {
        Some(k) => Ok(k.clone()),
        None => match &env.home {
            Some(h) => Ok(h.clone().concat("/.kube/config")),
            None => Err(Error::HomeDirectoryUnresolved),
        },
    }
}

fn push_token(cli: &mut Vec<String>, t: &str)
    ensures
        token_views(final(cli)@) == token_views(old(cli)@).push(t@),
{
    cli.push(String::from_str(t));
    assert(token_views(cli@) =~= token_views(old(cli)@).push(t@));
}

/// Builds the tokens of the command that applies the manifests in
/// `manifests_dir` for `app_instance`: the containerized kubectl where
/// `is_local`, else the kubectl binary, followed by the apply policy and, where
/// given, the user to impersonate. Every value from the inputs is a token of
/// its own.
pub fn emit_commandline(
    app_instance: &AppInstance,
    manifests_dir: &str,
    impersonate_user: &Option<String>,
    is_local: bool,
    env: &KubeEnv,
) -> (r: Result<Vec<String>, Error>)
    ensures
        r is Ok <==> can_build(is_local, *env),
        match r {
            Ok(cli) => token_views(cli@) == commandline_in(
                *app_instance,
                manifests_dir@,
                *impersonate_user,
                is_local,
                *env,
            ),
            Err(e) => e == Error::HomeDirectoryUnresolved,
        },
{
    let mut cli: Vec<String> = Vec::new();
    let ghost kube_config = match kubeconfig_of(*env) {
        Some(k) => k,
        None => Seq::<char>::empty(),
    };
    if is_local {
        let path = match kubeconfig_path(env) {
            Ok(p) => p,
            Err(e) => return Err(e),
        };
        let volume = path.concat(":/.kube/config:ro");
        push_token(&mut cli, "docker");
        push_token(&mut cli, "run");
        push_token(&mut cli, "--rm");
        push_token(&mut cli, "-v");
        push_token(&mut cli, volume.as_str());
        push_token(&mut cli, "--env");
        push_token(&mut cli, "KUBECTL_APPLYSET=true");
        push_token(&mut cli, "--env");
        push_token(&mut cli, "KUBECONFIG=/.kube/config");
        push_token(&mut cli, "bitnami/kubectl:1.27.5");
    } else {
        push_token(&mut cli, "kubectl");
    }
    assert(token_views(cli@) =~= runner_tokens(is_local, kube_config));
    let ghost runner = token_views(cli@);
    let namespace = app_instance.namespace_any();
    let name = app_instance.name_any();
    push_token(&mut cli, "apply");
    push_token(&mut cli, "-f");
    push_token(&mut cli, manifests_dir);
    push_token(&mut cli, "-n");
    push_token(&mut cli, namespace.as_str());
    push_token(&mut cli, "--server-side");
    push_token(&mut cli, "--prune");
    push_token(&mut cli, "--applyset");
    push_token(&mut cli, name.as_str());
    push_token(&mut cli, "--field-manager");
    push_token(&mut cli, KUBIT_APPLIER_FIELD_MANAGER);
    push_token(&mut cli, "--force-conflicts");
    push_token(&mut cli, "-v=2");
    assert(token_views(cli@) =~= runner + apply_tokens(manifests_dir@, *app_instance));
    let ghost applied = token_views(cli@);
    match impersonate_user {
        Some(user) => {
            let flag = String::from_str("--as=").concat(user.as_str());
            push_token(&mut cli, flag.as_str());
        },
        None => {},
    }
    assert(token_views(cli@) =~= applied + impersonation_tokens(*impersonate_user));
    Ok(cli)
}

/// The apply command for `app_instance` as a script.
pub fn script(
    app_instance: &AppInstance,
    manifests_dir: &str,
    impersonate_user: &Option<String>,
    is_local: bool,
    env: &KubeEnv,
) -> (r: Result<Script, Error>)
    ensures
        r is Ok <==> can_build(is_local, *env),
        match r {
            Ok(s) => s@ == commandline_in(
                *app_instance,
                manifests_dir@,
                *impersonate_user,
                is_local,
                *env,
            ),
            Err(e) => e == Error::HomeDirectoryUnresolved,
        },
{
    let tokens = emit_commandline(app_instance, manifests_dir, impersonate_user, is_local, env)?;
    Ok(Script::from_vec(tokens))
}

/// The printable shell script that applies the manifests under
/// `DEFAULT_MANIFESTS_DIR` for `app_instance`, without impersonation.
pub fn emit_script(app_instance: &AppInstance, is_local: bool, env: &KubeEnv) -> (r: Result<
    String,
    Error,
>)
    ensures
        r is Ok <==> can_build(is_local, *env),
        match r {
            Ok(text) => text@ == render_tokens(
                commandline_in(*app_instance, DEFAULT_MANIFESTS_DIR@, None, is_local, *env),
            ),
            Err(e) => e == Error::HomeDirectoryUnresolved,
        },
{
    let script = script(app_instance, DEFAULT_MANIFESTS_DIR, &None, is_local, env)?;
    Ok(script.render())
}

/// Building is deterministic: two scripts built from the same instance,
/// manifests directory, impersonation value, strategy and environment hold the
/// same tokens and render to the same text.
pub proof fn lemma_build_deterministic(
    app: AppInstance,
    manifests_dir: Seq<char>,
    impersonate_user: Option<String>,
    is_local: bool,
    env: KubeEnv,
    first: Script,
    second: Script,
)
    requires
        first@ == commandline_in(app, manifests_dir, impersonate_user, is_local, env),
        second@ == commandline_in(app, manifests_dir, impersonate_user, is_local, env),
    ensures
        first@ == second@,
        render_tokens(first@) == render_tokens(second@),
{
}

/// The command ends in a single `--as=<user>` token exactly when a user is
/// given; without one it ends with the fixed verbosity flag and holds no
/// impersonation token. A non-empty user never yields a bare `--as=`.
pub proof fn lemma_impersonation_toggle(
    app: AppInstance,
    manifests_dir: Seq<char>,
    impersonate_user: Option<String>,
    is_local: bool,
    kube_config: Seq<char>,
)
    ensures
        ({
            let ts = commandline(app, manifests_dir, impersonate_user, is_local, kube_config);
            let fixed = runner_tokens(is_local, kube_config).len() + 13;
            match impersonate_user {
                Some(u) => ts.len() == fixed + 1 && ts.last() == "--as="@ + u@ && (u@.len() > 0
                    ==> ts.last() != "--as="@) && ts.drop_last() == commandline(
                    app,
                    manifests_dir,
                    None,
                    is_local,
                    kube_config,
                ),
                None => ts.len() == fixed && ts.last() == "-v=2"@,
            }
        }),
{
    let ts = commandline(app, manifests_dir, impersonate_user, is_local, kube_config);
    let base = runner_tokens(is_local, kube_config) + apply_tokens(manifests_dir, app);
    match impersonate_user {
        Some(u) => {
            assert(ts.drop_last() =~= commandline(app, manifests_dir, None, is_local, kube_config));
            assert(("--as="@ + u@).len() == "--as="@.len() + u@.len());
        },
        None => {
            assert(ts =~= base);
        },
    }
}

/// The containerized strategy starts with the container runner, which mounts
/// the resolved kubeconfig; the direct strategy starts with the bare binary and
/// holds nothing but the apply arguments after it.
pub proof fn lemma_strategy_branching(
    app: AppInstance,
    manifests_dir: Seq<char>,
    impersonate_user: Option<String>,
    is_local: bool,
    kube_config: Seq<char>,
)
    ensures
        ({
            let ts = commandline(app, manifests_dir, impersonate_user, is_local, kube_config);
            if is_local {
                ts.take(10) == runner_tokens(true, kube_config) && ts[0] == "docker"@ && ts[4]
                    == kube_config + ":/.kube/config:ro"@
            } else {
                ts[0] == "kubectl"@ && ts[0] != "docker"@ && ts.drop_first() == apply_tokens(
                    manifests_dir,
                    app,
                ) + impersonation_tokens(impersonate_user)
            }
        }),
{
    let ts = commandline(app, manifests_dir, impersonate_user, is_local, kube_config);
    if is_local {
        assert(ts.take(10) =~= runner_tokens(true, kube_config));
    } else {
        reveal_strlit("kubectl");
        reveal_strlit("docker");
        assert("kubectl"@.len() != "docker"@.len());
        assert(ts.drop_first() =~= apply_tokens(manifests_dir, app) + impersonation_tokens(
            impersonate_user,
        ));
    }
}

} // verus!
