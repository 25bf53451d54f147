use comlinepm::config::{freeze, is_valid_namespace, ConfigError, Field, Manifest, Source};
use comlinepm::semver::is_valid_version;
use comlinepm::dependency::{add_local, add_remote, DependencyError, PathProbe};
use comlinepm::pipeline::{attach_artifacts, build, BuildContext, BuildError};
use comlinepm::publish::{publish, publishable, registry_outcome, PublishError, RegistryOutcome};
use comlinepm::registry::{
    complete_login, find_method, login, method_listing, method_table, AuthError, LoginAction,
    MethodKind, Session,
};

fn demo_manifest() -> Manifest {
    let mut m = Manifest::new("demo".to_string());
    m.set_namespace("demo".to_string());
    m.set_version("1.0.0".to_string());
    m
}

#[test]
fn freeze_valid_manifest() {
    let m = demo_manifest();
    let f = freeze(&m).ok().unwrap();
    assert_eq!(f.namespace(), Ok("demo".to_string()));
    assert_eq!(f.version(), Ok("1.0.0".to_string()));
    assert!(f.dependencies().is_empty());
}

#[test]
fn freeze_is_deterministic() {
    let mut m = demo_manifest();
    add_remote(&mut m, "acme::net".to_string());
    let a = freeze(&m).ok().unwrap();
    let b = freeze(&m).ok().unwrap();
    assert_eq!(a.namespace(), b.namespace());
    assert_eq!(a.version(), b.version());
    assert_eq!(a.dependencies().len(), b.dependencies().len());
    assert_eq!(a.dependencies()[0].identifier, b.dependencies()[0].identifier);
}

#[test]
fn freeze_leaves_manifest_unchanged() {
    let m = demo_manifest();
    let _ = freeze(&m);
    assert_eq!(m.namespace.as_deref(), Some("demo"));
    assert_eq!(m.version.as_deref(), Some("1.0.0"));
    assert_eq!(m.name, "demo");
}

#[test]
fn freeze_missing_namespace_is_incomplete() {
    let mut m = Manifest::new("p".to_string());
    m.set_version("1.0.0".to_string());
    assert!(matches!(freeze(&m), Err(ConfigError::Incomplete(Field::Namespace))));
    assert!(m.namespace.is_none());
}

#[test]
fn freeze_missing_version_is_incomplete() {
    let mut m = Manifest::new("p".to_string());
    m.set_namespace("demo".to_string());
    assert!(matches!(freeze(&m), Err(ConfigError::Incomplete(Field::Version))));
    assert!(m.version.is_none());
}

#[test]
fn freeze_missing_both_reports_namespace() {
    let m = Manifest::new("p".to_string());
    assert!(matches!(freeze(&m), Err(ConfigError::Incomplete(Field::Namespace))));
}

#[test]
fn freeze_invalid_fields() {
    let mut m = demo_manifest();
    m.set_version("1.0".to_string());
    assert!(matches!(freeze(&m), Err(ConfigError::Invalid(Field::Version))));
    let mut m = demo_manifest();
    m.set_namespace("de mo".to_string());
    assert!(matches!(freeze(&m), Err(ConfigError::Invalid(Field::Namespace))));
}

#[test]
fn version_format_rules() {
    assert!(is_valid_version("1.0.0"));
    assert!(is_valid_version("10.20.30"));
    assert!(!is_valid_version(""));
    assert!(!is_valid_version("1.0"));
    assert!(!is_valid_version("1.0.0.0"));
    assert!(!is_valid_version("1..0"));
    assert!(!is_valid_version(".1.0"));
    assert!(!is_valid_version("1.0."));
    assert!(!is_valid_version("a.b.c"));
    assert!(is_valid_version("0.0.0"));
    assert!(!is_valid_version("01.0.0"));
    assert!(!is_valid_version("1.00.0"));
    assert!(!is_valid_version("1.0.00"));
    assert!(is_valid_version("1.0.0-alpha"));
    assert!(is_valid_version("1.0.0+build.5"));
    assert!(is_valid_version("1.0.0-alpha.1+build.5"));
    assert!(is_valid_version("1.0.0-x-y.0.a01"));
    assert!(is_valid_version("1.0.0+001"));
    assert!(!is_valid_version("1.0.0-01"));
    assert!(!is_valid_version("1.0.0-"));
    assert!(!is_valid_version("1.0.0+"));
    assert!(!is_valid_version("1.0.0-alpha..1"));
    assert!(!is_valid_version("1.0.0+build_5"));
    assert!(!is_valid_version("1.0-alpha"));
}

#[test]
fn leading_zero_version_does_not_build() {
    let mut m = demo_manifest();
    m.set_version("01.0.0".to_string());
    assert!(matches!(freeze(&m), Err(ConfigError::Invalid(Field::Version))));
    assert!(matches!(
        build("pkg", Some(&m)),
        Err(BuildError::Config(ConfigError::Invalid(Field::Version)))
    ));
}

#[test]
fn prerelease_and_build_versions_freeze() {
    let mut m = demo_manifest();
    m.set_version("1.0.0-alpha".to_string());
    assert_eq!(freeze(&m).ok().unwrap().version(), Ok("1.0.0-alpha".to_string()));
    m.set_version("1.0.0+build.5".to_string());
    assert_eq!(freeze(&m).ok().unwrap().version(), Ok("1.0.0+build.5".to_string()));
}

#[test]
fn namespace_format_rules() {
    assert!(is_valid_namespace("demo"));
    assert!(is_valid_namespace("my-pkg_2"));
    assert!(!is_valid_namespace(""));
    assert!(!is_valid_namespace("de mo"));
    assert!(!is_valid_namespace("a/b"));
}

#[test]
fn config_error_messages_name_the_field() {
    assert!(ConfigError::Incomplete(Field::Version).message().contains("version"));
    assert!(ConfigError::Invalid(Field::Namespace).message().contains("namespace"));
    assert!(ConfigError::MissingField(Field::Version).message().contains("version"));
}

#[test]
fn add_local_missing_path_fails_without_change() {
    let mut m = demo_manifest();
    add_remote(&mut m, "acme::net".to_string());
    let r = add_local(&mut m, "../nowhere".to_string(), PathProbe::Missing);
    match r {
        Err(DependencyError::PathNotFound(p)) => assert_eq!(p, "../nowhere"),
        _ => panic!("expected PathNotFound"),
    }
    assert_eq!(m.dependencies.len(), 1);
    assert_eq!(m.dependencies[0].identifier, "acme::net");
    assert_eq!(m.namespace.as_deref(), Some("demo"));
}

#[test]
fn add_local_not_a_package() {
    let mut m = demo_manifest();
    let r = add_local(&mut m, "../notes".to_string(), PathProbe::NotAPackage);
    assert!(matches!(r, Err(DependencyError::NotAPackage(ref p)) if p == "../notes"));
    assert!(m.dependencies.is_empty());
    assert!(r.err().unwrap().message().contains("../notes"));
}

#[test]
fn add_local_package_is_recorded() {
    let mut m = demo_manifest();
    assert!(add_local(&mut m, "../lib".to_string(), PathProbe::Package).is_ok());
    assert_eq!(m.dependencies.len(), 1);
    assert!(m.dependencies[0].is_local());
    assert!(matches!(m.dependencies[0].source, Source::Local(ref p) if p == "../lib"));
}

#[test]
fn re_adding_replaces_by_identifier() {
    let mut m = demo_manifest();
    add_remote(&mut m, "acme::net".to_string());
    add_remote(&mut m, "acme::io".to_string());
    add_remote(&mut m, "acme::net".to_string());
    add_remote(&mut m, "acme::net".to_string());
    assert_eq!(m.dependencies.len(), 2);
    assert_eq!(m.dependencies[0].identifier, "acme::net");
    assert_eq!(m.dependencies[1].identifier, "acme::io");
    assert!(!m.dependencies[0].is_local());
}

#[test]
fn re_adding_same_identifier_as_local_replaces_remote() {
    let mut m = demo_manifest();
    add_remote(&mut m, "shared".to_string());
    assert!(add_local(&mut m, "shared".to_string(), PathProbe::Package).is_ok());
    assert_eq!(m.dependencies.len(), 1);
    assert!(m.dependencies[0].is_local());
}

#[test]
fn unknown_method_lists_every_method() {
    let r = login("nonexistent-method", "someone", None);
    let e = r.err().unwrap();
    assert!(matches!(e, AuthError::UnknownMethod(ref m) if m == "nonexistent-method"));
    let text = e.message();
    assert!(text.contains("nonexistent-method"));
    for entry in method_table() {
        assert!(text.contains(&entry.name));
        assert!(text.contains(&entry.description));
    }
    assert!(text.contains(" - ssh: SSH Authentication with a Private Key\n"));
    assert!(text.contains(" - gitlab: "));
}

#[test]
fn listing_has_one_line_per_method() {
    let listing = method_listing();
    assert_eq!(listing.lines().count(), method_table().len());
    assert_eq!(method_table().len(), 4);
}

#[test]
fn github_without_credential_fails() {
    let r = login("github", "octo-org", None);
    assert!(matches!(r, Err(AuthError::MissingCredential(ref m)) if m == "github"));
}

#[test]
fn github_with_credential_exchanges_token() {
    let r = login("github", "octo-org", Some("SECRET-REDACTED".to_string()));
    match r {
        Ok(LoginAction::ExchangePat { target, token }) => {
            assert_eq!(target, "octo-org");
            assert_eq!(token, "SECRET-REDACTED");
        }
        _ => panic!("expected a token exchange"),
    }
}

#[test]
fn ssh_and_federated_methods_dispatch() {
    assert!(matches!(
        login("ssh", "registry.example", None),
        Ok(LoginAction::ResolveSshKey { ref target }) if target == "registry.example"
    ));
    assert!(matches!(
        login("gitlab", "group", None),
        Ok(LoginAction::Federate { ref provider, ref target }) if provider == "gitlab" && target == "group"
    ));
    assert_eq!(find_method("github_oidc"), Some(MethodKind::Federated));
    assert_eq!(find_method("GitHub"), None);
}

#[test]
fn completing_login() {
    let ssh = LoginAction::ResolveSshKey { target: "reg".to_string() };
    assert!(matches!(
        complete_login(&ssh, Err("no key".to_string())),
        Err(AuthError::KeyUnavailable(ref t)) if t == "reg"
    ));
    let s = complete_login(&ssh, Ok("tok".to_string())).ok().unwrap();
    assert_eq!(s.method, "ssh");
    assert_eq!(s.target, "reg");
    assert_eq!(s.token, "tok");
    let fed = LoginAction::Federate { provider: "gitlab".to_string(), target: "grp".to_string() };
    let e = complete_login(&fed, Err("denied".to_string())).err().unwrap();
    assert!(matches!(e, AuthError::ProviderFailure(ref who, ref why) if who == "gitlab" && why == "denied"));
    assert!(e.message().contains("gitlab"));
}

#[test]
fn publish_unbuilt_fails_for_any_registries() {
    let ctx = BuildContext::unbuilt();
    assert!(matches!(publish(&ctx, &vec![], &vec![]), Err(PublishError::NotBuilt)));
    let regs = vec!["a".to_string(), "b".to_string()];
    let outs = vec![RegistryOutcome::Published, RegistryOutcome::Published];
    assert!(matches!(publish(&ctx, &regs, &outs), Err(PublishError::NotBuilt)));
    assert!(matches!(publishable(&ctx), Err(PublishError::NotBuilt)));
}

#[test]
fn publish_reports_only_failed_registries() {
    let ctx = build("pkg", Some(&demo_manifest())).ok().unwrap();
    let regs = vec!["a".to_string(), "b".to_string()];
    let outs = vec![RegistryOutcome::Published, RegistryOutcome::PushFailed("refused".to_string())];
    match publish(&ctx, &regs, &outs) {
        Err(PublishError::PerRegistryFailures(v)) => {
            assert_eq!(v.len(), 1);
            assert_eq!(v[0].registry, "b");
            assert!(v.iter().all(|f| f.registry != "a"));
        }
        _ => panic!("expected per-registry failures"),
    }
    let only_a = vec!["a".to_string()];
    assert!(publish(&ctx, &only_a, &vec![RegistryOutcome::Published]).is_ok());
}

#[test]
fn publish_collects_every_failure_in_order() {
    let ctx = build("pkg", Some(&demo_manifest())).ok().unwrap();
    let regs = vec!["x".to_string(), "y".to_string(), "z".to_string()];
    let outs = vec![
        RegistryOutcome::UnknownRegistry,
        RegistryOutcome::Published,
        RegistryOutcome::AuthFailed("expired".to_string()),
    ];
    match publish(&ctx, &regs, &outs) {
        Err(PublishError::PerRegistryFailures(v)) => {
            assert_eq!(v.len(), 2);
            assert_eq!(v[0].registry, "x");
            assert!(matches!(v[0].reason, RegistryOutcome::UnknownRegistry));
            assert_eq!(v[1].registry, "z");
            assert!(matches!(v[1].reason, RegistryOutcome::AuthFailed(ref w) if w == "expired"));
        }
        _ => panic!("expected per-registry failures"),
    }
    assert!(publish(&ctx, &vec![], &vec![]).is_ok());
}

#[test]
fn end_to_end_build_then_version() {
    let m = demo_manifest();
    let ctx = build("pkg", Some(&m)).ok().unwrap();
    assert!(ctx.is_built());
    let frozen = ctx.frozen_config().unwrap();
    assert_eq!(frozen.version(), Ok("1.0.0".to_string()));
    assert_eq!(frozen.namespace(), Ok("demo".to_string()));
}

#[test]
fn build_without_manifest() {
    let r = build("some/pkg", None);
    let e = r.err().unwrap();
    assert!(matches!(e, BuildError::NoManifest(ref p) if p == "some/pkg"));
    assert!(e.message().contains("some/pkg"));
}

#[test]
fn build_with_incomplete_manifest() {
    let mut m = Manifest::new("p".to_string());
    m.set_namespace("demo".to_string());
    assert!(matches!(
        build("pkg", Some(&m)),
        Err(BuildError::Config(ConfigError::Incomplete(Field::Version)))
    ));
}

#[test]
fn attaching_artifacts() {
    let ctx = build("pkg", Some(&demo_manifest())).ok().unwrap();
    let ctx = attach_artifacts(ctx, Ok(vec!["demo-1.0.0".to_string()])).ok().unwrap();
    match &ctx {
        BuildContext::Built { artifacts, .. } => assert_eq!(artifacts, &vec!["demo-1.0.0".to_string()]),
        BuildContext::Unbuilt => panic!("expected a built context"),
    }
    let r = attach_artifacts(ctx, Err("compile failed".to_string()));
    assert!(matches!(r, Err(BuildError::Artifact(ref w)) if w == "compile failed"));
    assert!(BuildContext::unbuilt().frozen_config().is_none());
}

#[test]
fn message_texts() {
    assert_eq!(
        ConfigError::Incomplete(Field::Version).message(),
        "manifest is incomplete, missing field: version"
    );
    assert_eq!(
        DependencyError::Io("pkg".to_string()).message(),
        "cannot read or write the manifest at: pkg"
    );
    assert_eq!(
        BuildError::Config(ConfigError::Invalid(Field::Namespace)).message(),
        "manifest has an invalid field: namespace"
    );
    assert_eq!(
        AuthError::MissingCredential("github".to_string()).message(),
        "a credential is required by authentication method: github"
    );
    assert_eq!(
        AuthError::ProviderFailure("gitlab".to_string(), "denied".to_string()).message(),
        "authentication with gitlab failed: denied"
    );
    assert!(AuthError::UnknownMethod("x".to_string())
        .message()
        .starts_with("Authentication method 'x' is not valid.\n\nOnly existing methods are:\n - ssh: "));
}

fn session() -> Session {
    Session { method: "ssh".to_string(), target: "reg".to_string(), token: "tok".to_string() }
}

#[test]
fn outcome_of_each_registry_step() {
    assert!(matches!(registry_outcome(false, None, None), RegistryOutcome::UnknownRegistry));
    let failed = Err(AuthError::KeyUnavailable("reg".to_string()));
    match registry_outcome(true, Some(failed), None) {
        RegistryOutcome::AuthFailed(why) => {
            assert_eq!(why, "no private key could be resolved for: reg")
        }
        _ => panic!("expected an authentication failure"),
    }
    assert!(matches!(
        registry_outcome(true, Some(Ok(session())), Some(Ok(()))),
        RegistryOutcome::Published
    ));
    assert!(matches!(
        registry_outcome(true, Some(Ok(session())), Some(Err("refused".to_string()))),
        RegistryOutcome::PushFailed(ref w) if w == "refused"
    ));
}

#[test]
fn attaching_artifacts_to_unbuilt_context() {
    let r = attach_artifacts(BuildContext::unbuilt(), Ok(vec!["x".to_string()]));
    assert!(matches!(r, Ok(BuildContext::Unbuilt)));
    let r = attach_artifacts(BuildContext::unbuilt(), Err("failed".to_string()));
    assert!(matches!(r, Err(BuildError::Artifact(ref w)) if w == "failed"));
}
