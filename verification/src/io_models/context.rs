use crate::io_models::execution_suffix::{
    decimal_concat, decimal_suffix, sample_alphanumeric, is_alphanumeric_byte, is_ascii_digit,
    lemma_decimal_concat_shape, SUFFIX_SAMPLES,
};
use url::Url;
use vstd::prelude::*;

verus! {

/// Everything a request may carry to change how it is carried out.
/// E.g. a request can say that it is a test, and the engine adapts its behaviour.
#[derive(Debug, Clone, Copy, PartialEq, Eq, Hash, Structural)]
pub struct Metadata {
    pub dry_run_deploy: Option<bool>,
    pub resource_expiration_in_seconds: Option<u32>,
    pub forced_upgrade: Option<bool>,
    pub disable_pleco: Option<bool>,
    pub is_first_cluster_deployment: Option<bool>,
}

impl Metadata {
    pub fn new(
        dry_run_deploy: Option<bool>,
        resource_expiration_in_seconds: Option<u32>,
        forced_upgrade: Option<bool>,
        disable_pleco: Option<bool>,
        is_first_cluster_deployment: Option<bool>,
    ) -> (metadata: Self)
        ensures
            metadata.dry_run_deploy == dry_run_deploy,
            metadata.resource_expiration_in_seconds == resource_expiration_in_seconds,
            metadata.forced_upgrade == forced_upgrade,
            metadata.disable_pleco == disable_pleco,
            metadata.is_first_cluster_deployment == is_first_cluster_deployment,
    {
        Metadata {
            dry_run_deploy,
            resource_expiration_in_seconds,
            forced_upgrade,
            disable_pleco,
            is_first_cluster_deployment,
        }
    }
}

/// Optional capabilities that can be switched on for a request.
#[derive(Clone, Copy, Debug, Hash, PartialEq, Eq, Structural)]
pub enum Features {
    LogsHistory,
    MetricsHistory,
}

#[verifier::external_type_specification]
#[verifier::external_body]
pub struct ExUrl(url::Url);

/// Calls `<url::Url as Clone>::clone`. `Url` derives `Clone`, so the copy is the
/// same value as the original: that is what the contract claims.
#[verifier::external_body]
fn clone_url(url: &Url) -> (copy: Url)
    ensures
        copy == *url,
{
    url.clone()
}

/// The context in which a request runs: whom it is for, where the engine keeps
/// its files, and which optional behaviours the request asks for.
/// `D` is the handle on the container runtime that the engine drives.
#[derive(Clone)]
pub struct Context<D> {
    organization_id: String,
    cluster_id: String,
    execution_id: String,
    workspace_root_dir: String,
    lib_root_dir: String,
    test_cluster: bool,
    docker_host: Option<Url>,
    features: Vec<Features>,
    metadata: Option<Metadata>,
    pub docker: D,
}

/// What a `Context` holds, strings taken as their characters.
/// The container-runtime handle is a public field of `Context` and is not part of it.
pub struct ContextView {
    pub organization_id: Seq<char>,
    pub cluster_id: Seq<char>,
    pub execution_id: Seq<char>,
    pub workspace_root_dir: Seq<char>,
    pub lib_root_dir: Seq<char>,
    pub test_cluster: bool,
    pub docker_host: Option<Url>,
    pub features: Seq<Features>,
    pub metadata: Option<Metadata>,
}

impl ContextView {
    /// A dry-run deployment is asked for only by metadata that says so explicitly.
    pub open spec fn is_dry_run_deploy(self) -> bool {
        match self.metadata {
            Some(meta) => meta.dry_run_deploy == Some(true),
            None => false,
        }
    }

    /// Pleco stays disabled unless metadata explicitly enables it.
    pub open spec fn disable_pleco(self) -> bool {
        match self.metadata {
            Some(meta) => match meta.disable_pleco {
                Some(b) => b,
                None => true,
            },
            None => true,
        }
    }

    /// A forced upgrade is asked for only by metadata that says so explicitly.
    pub open spec fn requires_forced_upgrade(self) -> bool {
        match self.metadata {
            Some(meta) => meta.forced_upgrade == Some(true),
            None => false,
        }
    }

    pub open spec fn resource_expiration_in_seconds(self) -> Option<u32> {
        match self.metadata {
            Some(meta) => meta.resource_expiration_in_seconds,
            None => None,
        }
    }

    /// A first cluster deployment is assumed only where metadata says so.
    pub open spec fn is_first_cluster_deployment(self) -> bool {
        match self.metadata {
            Some(meta) => match meta.is_first_cluster_deployment {
                Some(b) => b,
                None => false,
            },
            None => false,
        }
    }

    pub open spec fn is_feature_enabled(self, feature: Features) -> bool {
        self.features.contains(feature)
    }

    /// The same context under another execution id.
    pub open spec fn with_execution_id(self, execution_id: Seq<char>) -> ContextView {
        ContextView { execution_id, ..self }
    }
}

/// Given metadata, a context is a dry-run deployment exactly when the metadata's
/// `dry_run_deploy` is `Some(true)`, whatever its other fields hold.
pub proof fn lemma_dry_run_follows_its_field(context: ContextView, meta: Metadata)
    requires
        context.metadata == Some(meta),
    ensures
        context.is_dry_run_deploy() <==> meta.dry_run_deploy == Some(true),
{
}

/// Given metadata, pleco is disabled exactly as its `disable_pleco` field says
/// when that field is set, and disabled when it is not, whatever the other fields hold.
pub proof fn lemma_disable_pleco_follows_its_field(context: ContextView, meta: Metadata)
    requires
        context.metadata == Some(meta),
    ensures
        forall|b: bool| meta.disable_pleco == Some(b) ==> (context.disable_pleco() <==> b),
        meta.disable_pleco is None ==> context.disable_pleco(),
        !context.disable_pleco() <==> meta.disable_pleco == Some(false),
{
}

/// Given metadata, a forced upgrade is required exactly when the metadata's
/// `forced_upgrade` is `Some(true)`, whatever its other fields hold.
pub proof fn lemma_forced_upgrade_follows_its_field(context: ContextView, meta: Metadata)
    requires
        context.metadata == Some(meta),
    ensures
        context.requires_forced_upgrade() <==> meta.forced_upgrade == Some(true),
{
}

/// Given metadata, the resource expiration is exactly the metadata's
/// `resource_expiration_in_seconds`, whatever its other fields hold.
pub proof fn lemma_resource_expiration_follows_its_field(context: ContextView, meta: Metadata)
    requires
        context.metadata == Some(meta),
    ensures
        context.resource_expiration_in_seconds() == meta.resource_expiration_in_seconds,
{
}

/// Given metadata, a first cluster deployment is reported exactly as its
/// `is_first_cluster_deployment` field says when that field is set, and not when
/// it is unset, whatever the other fields hold.
pub proof fn lemma_first_cluster_deployment_follows_its_field(context: ContextView, meta: Metadata)
    requires
        context.metadata == Some(meta),
    ensures
        forall|b: bool|
            meta.is_first_cluster_deployment == Some(b) ==> (context.is_first_cluster_deployment()
                <==> b),
        meta.is_first_cluster_deployment is None ==> !context.is_first_cluster_deployment(),
        context.is_first_cluster_deployment() <==> meta.is_first_cluster_deployment == Some(true),
{
}

/// Without metadata, a context asks for no dry run, no forced upgrade, no first
/// cluster deployment and no resource expiration, and keeps pleco disabled.
pub proof fn lemma_no_metadata_defaults(context: ContextView)
    requires
        context.metadata is None,
    ensures
        !context.is_dry_run_deploy(),
        context.disable_pleco(),
        !context.requires_forced_upgrade(),
        context.resource_expiration_in_seconds() is None,
        !context.is_first_cluster_deployment(),
{
}

/// Metadata in which no field is set answers every question as no metadata does.
pub proof fn lemma_empty_metadata_is_no_metadata(context: ContextView)
    requires
        context.metadata == Some(
            Metadata {
                dry_run_deploy: None,
                resource_expiration_in_seconds: None,
                forced_upgrade: None,
                disable_pleco: None,
                is_first_cluster_deployment: None,
            },
        ),
    ensures
        ({
            let bare = ContextView { metadata: None, ..context };
            &&& context.is_dry_run_deploy() == bare.is_dry_run_deploy()
            &&& context.disable_pleco() == bare.disable_pleco()
            &&& context.requires_forced_upgrade() == bare.requires_forced_upgrade()
            &&& context.resource_expiration_in_seconds() == bare.resource_expiration_in_seconds()
            &&& context.is_first_cluster_deployment() == bare.is_first_cluster_deployment()
        }),
{
}

/// Moving a context to another execution id changes nothing that is asked of it
/// but the execution id: the same identifiers, directories, flags and features.
pub proof fn lemma_other_execution_keeps_answers(context: ContextView, execution_id: Seq<char>)
    ensures
        ({
            let moved = context.with_execution_id(execution_id);
            &&& moved.execution_id == execution_id
            &&& moved.organization_id == context.organization_id
            &&& moved.cluster_id == context.cluster_id
            &&& moved.workspace_root_dir == context.workspace_root_dir
            &&& moved.lib_root_dir == context.lib_root_dir
            &&& moved.test_cluster == context.test_cluster
            &&& moved.docker_host == context.docker_host
            &&& moved.metadata == context.metadata
            &&& moved.is_dry_run_deploy() == context.is_dry_run_deploy()
            &&& moved.disable_pleco() == context.disable_pleco()
            &&& moved.requires_forced_upgrade() == context.requires_forced_upgrade()
            &&& moved.resource_expiration_in_seconds() == context.resource_expiration_in_seconds()
            &&& moved.is_first_cluster_deployment() == context.is_first_cluster_deployment()
            &&& forall|feature: Features|
                moved.is_feature_enabled(feature) == context.is_feature_enabled(feature)
        }),
{
}

impl<D> View for Context<D> {
    type V = ContextView;

    closed spec fn view(&self) -> ContextView {
        ContextView {
            organization_id: self.organization_id@,
            cluster_id: self.cluster_id@,
            execution_id: self.execution_id@,
            workspace_root_dir: self.workspace_root_dir@,
            lib_root_dir: self.lib_root_dir@,
            test_cluster: self.test_cluster,
            docker_host: self.docker_host,
            features: self.features@,
            metadata: self.metadata,
        }
    }
}

impl<D> Context<D> {
    /// The container-runtime handle, as contracts speak of it.
    pub closed spec fn docker_handle(&self) -> D {
        self.docker
    }

    pub fn new(
        organization_id: String,
        cluster_id: String,
        execution_id: String,
        workspace_root_dir: String,
        lib_root_dir: String,
        test_cluster: bool,
        docker_host: Option<Url>,
        features: Vec<Features>,
        metadata: Option<Metadata>,
        docker: D,
    ) -> (context: Self)
        ensures
            context@ == (ContextView {
                organization_id: organization_id@,
                cluster_id: cluster_id@,
                execution_id: execution_id@,
                workspace_root_dir: workspace_root_dir@,
                lib_root_dir: lib_root_dir@,
                test_cluster,
                docker_host,
                features: features@,
                metadata,
            }),
            context.docker_handle() == docker,
    {
        Context {
            organization_id,
            cluster_id,
            execution_id,
            workspace_root_dir,
            lib_root_dir,
            test_cluster,
            docker_host,
            features,
            metadata,
            docker,
        }
    }

    pub fn organization_id(&self) -> (id: &str)
        ensures
            id@ == self@.organization_id,
    {
        self.organization_id.as_str()
    }

    pub fn cluster_id(&self) -> (id: &str)
        ensures
            id@ == self@.cluster_id,
    {
        self.cluster_id.as_str()
    }

    pub fn execution_id(&self) -> (id: &str)
        ensures
            id@ == self@.execution_id,
    {
        self.execution_id.as_str()
    }

    pub fn workspace_root_dir(&self) -> (dir: &str)
        ensures
            dir@ == self@.workspace_root_dir,
    {
        self.workspace_root_dir.as_str()
    }

    pub fn lib_root_dir(&self) -> (dir: &str)
        ensures
            dir@ == self@.lib_root_dir,
    {
        self.lib_root_dir.as_str()
    }

    pub fn docker_tcp_socket(&self) -> (host: &Option<Url>)
        ensures
            *host == self@.docker_host,
    {
        &self.docker_host
    }

    pub fn metadata(&self) -> (metadata: Option<&Metadata>)
        ensures
            metadata is Some <==> self@.metadata is Some,
            metadata is Some ==> *metadata->0 == self@.metadata->0,
    {
        match &self.metadata {
            Some(meta) => Some(meta),
            None => None,
        }
    }

    pub fn is_dry_run_deploy(&self) -> (dry_run: bool)
        ensures
            dry_run == self@.is_dry_run_deploy(),
            dry_run <==> (self@.metadata matches Some(meta) && meta.dry_run_deploy == Some(true)),
    {
        match &self.metadata {
            Some(meta) => match meta.dry_run_deploy {
                Some(true) => true,
                _ => false,
            },
            _ => false,
        }
    }

    pub fn disable_pleco(&self) -> (disabled: bool)
        ensures
            disabled == self@.disable_pleco(),
            !disabled <==> (self@.metadata matches Some(meta) && meta.disable_pleco == Some(false)),
    {
        match &self.metadata {
            Some(meta) => meta.disable_pleco.unwrap_or(true),
            _ => true,
        }
    }

    pub fn requires_forced_upgrade(&self) -> (forced: bool)
        ensures
            forced == self@.requires_forced_upgrade(),
            forced <==> (self@.metadata matches Some(meta) && meta.forced_upgrade == Some(true)),
    {
        match &self.metadata {
            Some(meta) => match meta.forced_upgrade {
                Some(true) => true,
                _ => false,
            },
            _ => false,
        }
    }

    pub fn is_test_cluster(&self) -> (test_cluster: bool)
        ensures
            test_cluster == self@.test_cluster,
    {
        self.test_cluster
    }

    pub fn resource_expiration_in_seconds(&self) -> (seconds: Option<u32>)
        ensures
            seconds == self@.resource_expiration_in_seconds(),
            seconds == (match self@.metadata {
                Some(meta) => meta.resource_expiration_in_seconds,
                None => None,
            }),
    {
        match &self.metadata {
            Some(meta) => meta.resource_expiration_in_seconds,
            _ => None,
        }
    }

    pub fn is_first_cluster_deployment(&self) -> (first: bool)
        ensures
            first == self@.is_first_cluster_deployment(),
            first <==> (self@.metadata matches Some(meta) && meta.is_first_cluster_deployment
                == Some(true)),
    {
        match &self.metadata {
            Some(meta) => meta.is_first_cluster_deployment.unwrap_or(false),
            _ => false,
        }
    }

    /// Whether the feature is among those switched on for this request.
    pub fn is_feature_enabled(&self, name: &Features) -> (enabled: bool)
        ensures
            enabled == self@.is_feature_enabled(*name),
    {
        let n = self.features.len();
        let mut i: usize = 0;
        while i < n
            invariant
                n == self.features@.len(),
                i <= n,
                forall|j: int| 0 <= j < i ==> self.features@[j] != *name,
            decreases n - i,
        {
            if self.features[i] == *name {
                assert(self.features@[i as int] == *name);
                return true;
            }
            i += 1;
        }
        false
    }
}

impl<D: Clone> Context<D> {
    /// A copy of this context whose execution id is suffixed with a dash and the
    /// decimal renderings of `samples`; the container-runtime handle is cloned.
    pub fn clone_with_execution_suffix(&self, samples: &Vec<u8>) -> (copy: Context<D>)
        ensures
            copy@ == self@.with_execution_id(
                self@.execution_id + seq!['-'] + decimal_concat(samples@),
            ),
            cloned(self.docker_handle(), copy.docker_handle()),
    {
        let mut execution_id = self.execution_id.clone();
        proof {
            reveal_strlit("-");
        }
        execution_id.append("-");
        let suffix = decimal_suffix(samples);
        execution_id.append(suffix.as_str());
        assert(execution_id@ == self.execution_id@ + seq!['-'] + decimal_concat(samples@));
        let docker_host = match &self.docker_host {
            Some(url) => Some(clone_url(url)),
            None => None,
        };
        let features = self.features.clone();
        assert(features@ == self.features@);
        Context {
            organization_id: self.organization_id.clone(),
            cluster_id: self.cluster_id.clone(),
            execution_id,
            workspace_root_dir: self.workspace_root_dir.clone(),
            lib_root_dir: self.lib_root_dir.clone(),
            test_cluster: self.test_cluster,
            docker_host,
            features,
            metadata: self.metadata,
            docker: self.docker.clone(),
        }
    }
}

/// Cloning a context into one that runs under another execution.
pub trait CloneForTest: Sized {
    fn clone_not_same_execution_id(&self) -> Self;
}

/// A test clones its context and suffixes the execution id, so that the clone
/// works in a workspace of its own.
impl<D: Clone> CloneForTest for Context<D> {
    fn clone_not_same_execution_id(&self) -> (copy: Context<D>)
        ensures
            exists|samples: Seq<u8>|
                {
                    &&& samples.len() == SUFFIX_SAMPLES
                    &&& forall|i: int|
                        0 <= i < samples.len() ==> is_alphanumeric_byte(#[trigger] samples[i])
                    &&& copy@ == self@.with_execution_id(
                        self@.execution_id + seq!['-'] + decimal_concat(samples),
                    )
                },
            copy@.execution_id != self@.execution_id,
            copy@.execution_id.len() >= self@.execution_id.len() + 1 + 2 * SUFFIX_SAMPLES,
            copy@.execution_id.len() <= self@.execution_id.len() + 1 + 3 * SUFFIX_SAMPLES,
            copy@.execution_id.subrange(0, self@.execution_id.len() + 1int) == self@.execution_id
                + seq!['-'],
            forall|j: int|
                self@.execution_id.len() + 1 <= j < copy@.execution_id.len() ==> is_ascii_digit(
                    #[trigger] copy@.execution_id[j],
                ),
            cloned(self.docker_handle(), copy.docker_handle()),
    {
        let samples = sample_alphanumeric(SUFFIX_SAMPLES);
        let copy = self.clone_with_execution_suffix(&samples);
        proof {
            let old_id = self@.execution_id;
            let suffix = decimal_concat(samples@);
            lemma_decimal_concat_shape(samples@);
            assert forall|i: int| 0 <= i < samples@.len() implies 10 <= #[trigger] samples@[i] by {
                assert(is_alphanumeric_byte(samples@[i]));
            }
            assert(copy@.execution_id == old_id + seq!['-'] + suffix);
            assert(copy@.execution_id.subrange(0, old_id.len() + 1int) =~= old_id + seq!['-']);
            assert forall|j: int|
                old_id.len() + 1 <= j < copy@.execution_id.len() implies is_ascii_digit(
                    #[trigger] copy@.execution_id[j],
                ) by {
                assert(copy@.execution_id[j] == suffix[j - old_id.len() - 1]);
            }
        }
        copy
    }
}

} // verus!
