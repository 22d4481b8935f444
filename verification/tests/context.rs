use qovery_engine::io_models::context::{CloneForTest, Context, Features, Metadata};
use qovery_engine::io_models::execution_suffix::{
    decimal_suffix, push_byte_decimal, SUFFIX_SAMPLES,
};
use url::Url;

fn context_with(
    metadata: Option<Metadata>,
    features: Vec<Features>,
    docker_host: Option<Url>,
) -> Context<String> {
    Context::new(
        "org-1".to_string(),
        "cluster-2".to_string(),
        "exec-3".to_string(),
        "/tmp/workspace".to_string(),
        "/opt/lib".to_string(),
        true,
        docker_host,
        features,
        metadata,
        "docker-handle".to_string(),
    )
}

fn empty_metadata() -> Metadata {
    Metadata::new(None, None, None, None, None)
}

#[test]
fn metadata_new_keeps_every_field() {
    let m = Metadata::new(Some(true), Some(3600), Some(false), Some(true), Some(false));
    assert_eq!(m.dry_run_deploy, Some(true));
    assert_eq!(m.resource_expiration_in_seconds, Some(3600));
    assert_eq!(m.forced_upgrade, Some(false));
    assert_eq!(m.disable_pleco, Some(true));
    assert_eq!(m.is_first_cluster_deployment, Some(false));
}

#[test]
fn getters_give_back_what_new_was_given() {
    let url = Url::parse("tcp://127.0.0.1:2375").unwrap();
    let m = Metadata::new(Some(true), None, None, None, None);
    let ctx = context_with(Some(m), vec![Features::LogsHistory], Some(url.clone()));
    assert_eq!(ctx.organization_id(), "org-1");
    assert_eq!(ctx.cluster_id(), "cluster-2");
    assert_eq!(ctx.execution_id(), "exec-3");
    assert_eq!(ctx.workspace_root_dir(), "/tmp/workspace");
    assert_eq!(ctx.lib_root_dir(), "/opt/lib");
    assert!(ctx.is_test_cluster());
    assert_eq!(ctx.docker_tcp_socket(), &Some(url));
    assert_eq!(ctx.metadata(), Some(&m));
    assert_eq!(ctx.docker, "docker-handle");
}

#[test]
fn no_metadata_gives_the_defaults() {
    let ctx = context_with(None, vec![], None);
    assert_eq!(ctx.metadata(), None);
    assert!(!ctx.is_dry_run_deploy());
    assert!(ctx.disable_pleco());
    assert!(!ctx.requires_forced_upgrade());
    assert_eq!(ctx.resource_expiration_in_seconds(), None);
    assert!(!ctx.is_first_cluster_deployment());
    assert_eq!(ctx.docker_tcp_socket(), &None);
}

#[test]
fn empty_metadata_answers_as_no_metadata() {
    let with_empty = context_with(Some(empty_metadata()), vec![], None);
    let without = context_with(None, vec![], None);
    assert_eq!(with_empty.is_dry_run_deploy(), without.is_dry_run_deploy());
    assert_eq!(with_empty.disable_pleco(), without.disable_pleco());
    assert_eq!(with_empty.requires_forced_upgrade(), without.requires_forced_upgrade());
    assert_eq!(
        with_empty.resource_expiration_in_seconds(),
        without.resource_expiration_in_seconds()
    );
    assert_eq!(with_empty.is_first_cluster_deployment(), without.is_first_cluster_deployment());
}

#[test]
fn explicit_metadata_flags_are_read() {
    let m = Metadata::new(Some(true), Some(7200), Some(true), Some(false), Some(true));
    let ctx = context_with(Some(m), vec![], None);
    assert!(ctx.is_dry_run_deploy());
    assert!(!ctx.disable_pleco());
    assert!(ctx.requires_forced_upgrade());
    assert_eq!(ctx.resource_expiration_in_seconds(), Some(7200));
    assert!(ctx.is_first_cluster_deployment());
}

#[test]
fn explicit_false_flags_are_read() {
    let m = Metadata::new(Some(false), None, Some(false), Some(true), Some(false));
    let ctx = context_with(Some(m), vec![], None);
    assert!(!ctx.is_dry_run_deploy());
    assert!(ctx.disable_pleco());
    assert!(!ctx.requires_forced_upgrade());
    assert!(!ctx.is_first_cluster_deployment());
}

#[test]
fn feature_enabled_iff_listed() {
    let ctx = context_with(None, vec![Features::MetricsHistory], None);
    assert!(ctx.is_feature_enabled(&Features::MetricsHistory));
    assert!(!ctx.is_feature_enabled(&Features::LogsHistory));
    let none = context_with(None, vec![], None);
    assert!(!none.is_feature_enabled(&Features::MetricsHistory));
    let both = context_with(None, vec![Features::LogsHistory, Features::MetricsHistory], None);
    assert!(both.is_feature_enabled(&Features::LogsHistory));
    assert!(both.is_feature_enabled(&Features::MetricsHistory));
}

#[test]
fn byte_decimal_renderings() {
    let mut s = String::from("x");
    push_byte_decimal(&mut s, 0);
    push_byte_decimal(&mut s, 9);
    push_byte_decimal(&mut s, 48);
    push_byte_decimal(&mut s, 100);
    push_byte_decimal(&mut s, 255);
    assert_eq!(s, "x0948100255");
}

#[test]
fn decimal_suffix_joins_renderings() {
    assert_eq!(decimal_suffix(&vec![]), "");
    assert_eq!(decimal_suffix(&vec![65, 7, 122]), "657122");
    let samples: Vec<u8> = b"aZ09".to_vec();
    let expected: String = samples.iter().map(|e| e.to_string()).collect();
    assert_eq!(decimal_suffix(&samples), expected);
}

#[test]
fn clone_with_suffix_is_exact() {
    let url = Url::parse("tcp://10.0.0.1:2376").unwrap();
    let m = Metadata::new(None, Some(5), None, None, None);
    let ctx = context_with(Some(m), vec![Features::LogsHistory], Some(url.clone()));
    let copy = ctx.clone_with_execution_suffix(&vec![65, 97]);
    assert_eq!(copy.execution_id(), "exec-3-6597");
    assert_eq!(copy.organization_id(), "org-1");
    assert_eq!(copy.cluster_id(), "cluster-2");
    assert_eq!(copy.workspace_root_dir(), "/tmp/workspace");
    assert_eq!(copy.lib_root_dir(), "/opt/lib");
    assert!(copy.is_test_cluster());
    assert_eq!(copy.docker_tcp_socket(), &Some(url));
    assert_eq!(copy.metadata(), Some(&m));
    assert!(copy.is_feature_enabled(&Features::LogsHistory));
    assert_eq!(copy.docker, "docker-handle");
    assert_eq!(ctx.execution_id(), "exec-3");
}

#[test]
fn clone_not_same_execution_id_suffixes_the_id() {
    let m = Metadata::new(Some(true), None, None, None, None);
    let ctx = context_with(Some(m), vec![Features::MetricsHistory], None);
    let copy = ctx.clone_not_same_execution_id();
    assert_ne!(copy.execution_id(), ctx.execution_id());
    let rest = copy.execution_id().strip_prefix("exec-3-").unwrap();
    assert!(rest.len() >= 2 * SUFFIX_SAMPLES && rest.len() <= 3 * SUFFIX_SAMPLES);
    assert!(rest.chars().all(|c| c.is_ascii_digit()));
    assert_eq!(copy.organization_id(), ctx.organization_id());
    assert_eq!(copy.cluster_id(), ctx.cluster_id());
    assert_eq!(copy.workspace_root_dir(), ctx.workspace_root_dir());
    assert_eq!(copy.lib_root_dir(), ctx.lib_root_dir());
    assert_eq!(copy.metadata(), ctx.metadata());
    assert_eq!(copy.is_dry_run_deploy(), ctx.is_dry_run_deploy());
    assert!(copy.is_feature_enabled(&Features::MetricsHistory));
    assert_eq!(copy.docker, ctx.docker);
}

#[test]
fn two_clones_differ_from_the_original() {
    let ctx = context_with(None, vec![], None);
    let a = ctx.clone_not_same_execution_id();
    let b = a.clone_not_same_execution_id();
    assert_ne!(a.execution_id(), ctx.execution_id());
    assert_ne!(b.execution_id(), a.execution_id());
    assert!(b.execution_id().starts_with(a.execution_id()));
}
