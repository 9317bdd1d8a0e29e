//! Resource attributes: the key/value pairs that describe the running service
//! and its host platform, attached to every exported span.

use vstd::prelude::*;
use crate::config::{
    built_config, config_from_env, TelemetryConfig, TelemetryConfigBuilder, OTEL_SERVICE_NAME,
    OTEL_SERVICE_VERSION,
};
use crate::env::{first_of, opt_view, EnvSnapshot};
use crate::gcp::{
    platform_name, GcpPlatform, FUNCTION_NAME, GAE_SERVICE, GAE_VERSION, K_REVISION, K_SERVICE,
};

verus! {

/// Value of the `cloud.provider` attribute for Google Cloud.
pub const CLOUD_PROVIDER_GCP: &'static str = "gcp";

/// Variables naming the region, in order of precedence.
pub const CLOUD_RUN_REGION: &'static str = "CLOUD_RUN_REGION";
pub const FUNCTION_REGION: &'static str = "FUNCTION_REGION";
pub const GAE_REGION: &'static str = "GAE_REGION";

/// Attribute keys. The named ones are OpenTelemetry's semantic conventions
/// (`GcpProjectId` is `gcp.project_id`, which Cloud Trace requires).
#[derive(Debug, Clone, PartialEq, Eq)]
pub enum AttributeKey {
    ServiceName,
    ServiceVersion,
    CloudProvider,
    CloudPlatform,
    CloudAccountId,
    GcpProjectId,
    CloudRegion,
    FaasName,
    FaasVersion,
    Custom(String),
}

/// A typed attribute value.
#[derive(Debug, Clone, PartialEq, Eq)]
pub enum AttributeValue {
    Str(String),
    Bool(bool),
    Int(i64),
}

/// One resource attribute.
#[derive(Debug, Clone, PartialEq, Eq)]
pub struct Attribute {
    pub key: AttributeKey,
    pub value: AttributeValue,
}

/// `a` is the string attribute `key` = `value`.
pub open spec fn str_attr(a: Attribute, key: AttributeKey, value: Seq<char>) -> bool {
    &&& a.key == key
    &&& a.value matches AttributeValue::Str(s) && s@ == value
}

/// `attrs` lists exactly the string attributes `entries`, in order.
pub open spec fn lists(attrs: Seq<Attribute>, entries: Seq<(AttributeKey, Seq<char>)>) -> bool {
    &&& attrs.len() == entries.len()
    &&& forall|i: int| 0 <= i < attrs.len() ==> str_attr(#[trigger] attrs[i], entries[i].0, entries[i].1)
}

/// The attributes every resource starts with: service name, then version.
pub open spec fn base_entries(config: TelemetryConfig) -> Seq<(AttributeKey, Seq<char>)> {
    seq![
        (AttributeKey::ServiceName, config.service_name@),
        (AttributeKey::ServiceVersion, config.service_version@),
    ]
}

/// `attrs` starts with the service name and then the version of `config`.
pub open spec fn starts_with_service(attrs: Seq<Attribute>, config: TelemetryConfig) -> bool {
    attrs.len() >= 2 && lists(attrs.subrange(0, 2), base_entries(config))
}

/// A list of attributes that extends another keeps its first two.
proof fn lemma_prefix_lists(
    attrs: Seq<Attribute>,
    head: Seq<(AttributeKey, Seq<char>)>,
    tail: Seq<(AttributeKey, Seq<char>)>,
)
    requires
        lists(attrs, head + tail),
        head.len() == 2,
    ensures
        lists(attrs.subrange(0, 2), head),
{
    assert forall|i: int| 0 <= i < 2 implies str_attr(#[trigger] attrs.subrange(0, 2)[i], head[i].0, head[i].1) by {
        assert(attrs.subrange(0, 2)[i] == attrs[i]);
        assert((head + tail)[i] == head[i]);
    }
}

/// An entry for an optional value: one entry when present, none otherwise.
pub open spec fn optional_entry(key: AttributeKey, v: Option<Seq<char>>) -> Seq<(AttributeKey, Seq<char>)> {
    match v {
        Some(s) => seq![(key, s)],
        None => Seq::empty(),
    }
}

/// An ordered list of resource attributes. Built fresh for each bootstrap
/// and never changed afterwards.
#[derive(Debug, Clone)]
pub struct ResourceAttributes {
    attrs: Vec<Attribute>,
}

impl View for ResourceAttributes {
    type V = Seq<Attribute>;

    closed spec fn view(&self) -> Seq<Attribute> {
        self.attrs@
    }
}

impl ResourceAttributes {
    /// The attributes, in order.
    pub fn attributes(&self) -> (r: &Vec<Attribute>)
        ensures
            r@ == self@,
    {
        &self.attrs
    }

    pub fn len(&self) -> (r: usize)
        ensures
            r == self@.len(),
    {
        self.attrs.len()
    }

    pub fn is_empty(&self) -> (r: bool)
        ensures
            r == (self@.len() == 0),
    {
        self.attrs.len() == 0
    }
}

/// A string attribute.
fn str_attribute(key: AttributeKey, value: String) -> (r: Attribute)
    ensures
        str_attr(r, key, value@),
{
    Attribute { key, value: AttributeValue::Str(value) }
}

/// Appends the string attribute `key` = `value`.
fn push_str(attrs: &mut Vec<Attribute>, key: AttributeKey, value: String, entries: Ghost<Seq<(AttributeKey, Seq<char>)>>)
    requires
        lists(old(attrs)@, entries@),
    ensures
        lists(final(attrs)@, entries@.push((key, value@))),
{
    let a = str_attribute(key, value);
    attrs.push(a);
    assert forall|i: int| 0 <= i < final(attrs)@.len() implies str_attr(
        #[trigger] final(attrs)@[i],
        entries@.push((key, value@))[i].0,
        entries@.push((key, value@))[i].1,
    ) by {
        if i < old(attrs)@.len() {
            assert(final(attrs)@[i] == old(attrs)@[i]);
        }
    }
}

/// The service name and version of `config`, in that order.
pub fn base_attributes(config: &TelemetryConfig) -> (r: Vec<Attribute>)
    ensures
        lists(r@, base_entries(*config)),
{
    let mut attrs: Vec<Attribute> = Vec::new();
    let ghost e0: Seq<(AttributeKey, Seq<char>)> = Seq::empty();
    push_str(&mut attrs, AttributeKey::ServiceName, config.service_name.clone(), Ghost(e0));
    let ghost e1 = e0.push((AttributeKey::ServiceName, config.service_name@));
    push_str(&mut attrs, AttributeKey::ServiceVersion, config.service_version.clone(), Ghost(e1));
    assert(base_entries(*config) =~= e1.push((AttributeKey::ServiceVersion, config.service_version@)));
    attrs
}

/// The resource of a service with no backend-specific attributes.
pub fn build_base_resource(config: &TelemetryConfig) -> (r: ResourceAttributes)
    ensures
        lists(r@, base_entries(*config)),
        starts_with_service(r@, *config),
{
    let ghost b = base_entries(*config);
    proof {
        assert(b + Seq::<(AttributeKey, Seq<char>)>::empty() =~= b);
    }
    let r = ResourceAttributes { attrs: base_attributes(config) };
    proof {
        lemma_prefix_lists(r@, b, Seq::empty());
    }
    r
}

/// The base attributes followed by `additional`, in the caller's order.
/// Keys are not merged: the caller keeps them distinct.
pub fn build_resource(config: &TelemetryConfig, additional: Vec<Attribute>) -> (r: ResourceAttributes)
    ensures
        r@.len() == 2 + additional@.len(),
        starts_with_service(r@, *config),
        r@.subrange(2, r@.len() as int) == additional@,
{
    let mut attrs = base_attributes(config);
    let ghost base = attrs@;
    let mut more = additional;
    attrs.append(&mut more);
    assert(attrs@.subrange(0, 2) =~= base);
    assert(attrs@.subrange(2, attrs@.len() as int) =~= additional@);
    ResourceAttributes { attrs }
}

/// A configuration built without a service name or version, or with
/// non-empty ones, has a non-empty name and version, and every resource
/// built for it starts with both.
pub proof fn lemma_built_config_names_service(b: TelemetryConfigBuilder, c: TelemetryConfig, attrs: Seq<Attribute>)
    requires
        b.service_name matches Some(n) ==> n@.len() > 0,
        b.service_version matches Some(v) ==> v@.len() > 0,
        built_config(b, c),
        starts_with_service(attrs, c),
    ensures
        str_attr(attrs[0], AttributeKey::ServiceName, c.service_name@),
        str_attr(attrs[1], AttributeKey::ServiceVersion, c.service_version@),
        c.service_name@.len() > 0,
        c.service_version@.len() > 0,
{
    reveal_strlit("cloudtrace_telemetry");
    reveal_strlit("0.1.0");
    assert(attrs.subrange(0, 2)[0] == attrs[0]);
    assert(attrs.subrange(0, 2)[1] == attrs[1]);
}

/// A configuration read from an environment that leaves the service name
/// and version unset, or sets them to non-empty values, has a non-empty
/// name and version, and every resource built for it starts with both.
pub proof fn lemma_env_config_names_service(env: EnvSnapshot, c: TelemetryConfig, attrs: Seq<Attribute>)
    requires
        env.var(OTEL_SERVICE_NAME@) matches Some(n) ==> n.len() > 0,
        env.var(OTEL_SERVICE_VERSION@) matches Some(v) ==> v.len() > 0,
        config_from_env(env, c),
        starts_with_service(attrs, c),
    ensures
        str_attr(attrs[0], AttributeKey::ServiceName, c.service_name@),
        str_attr(attrs[1], AttributeKey::ServiceVersion, c.service_version@),
        c.service_name@.len() > 0,
        c.service_version@.len() > 0,
{
    reveal_strlit("cloudtrace_telemetry");
    reveal_strlit("0.1.0");
    assert(attrs.subrange(0, 2)[0] == attrs[0]);
    assert(attrs.subrange(0, 2)[1] == attrs[1]);
}

/// No key occurs twice.
pub open spec fn distinct_keys(entries: Seq<(AttributeKey, Seq<char>)>) -> bool {
    forall|i: int, j: int| 0 <= i < j < entries.len() ==> (#[trigger] entries[i]).0 != (#[trigger] entries[j]).0
}

/// The position of a key in the order resources list them.
spec fn key_rank(k: AttributeKey) -> int {
    match k {
        AttributeKey::ServiceName => 0,
        AttributeKey::ServiceVersion => 1,
        AttributeKey::CloudProvider => 2,
        AttributeKey::CloudPlatform => 3,
        AttributeKey::CloudAccountId => 4,
        AttributeKey::GcpProjectId => 5,
        AttributeKey::CloudRegion => 6,
        AttributeKey::FaasName => 7,
        AttributeKey::FaasVersion => 8,
        AttributeKey::Custom(_) => 9,
    }
}

/// Keys strictly increase in rank, and all ranks lie in `[lo, hi)`.
spec fn ranked(e: Seq<(AttributeKey, Seq<char>)>, lo: int, hi: int) -> bool {
    &&& forall|i: int, j: int| 0 <= i < j < e.len() ==> key_rank((#[trigger] e[i]).0) < key_rank((#[trigger] e[j]).0)
    &&& forall|i: int| 0 <= i < e.len() ==> lo <= key_rank((#[trigger] e[i]).0) < hi
}

proof fn lemma_ranked_concat(a: Seq<(AttributeKey, Seq<char>)>, b: Seq<(AttributeKey, Seq<char>)>, lo: int, mid: int, hi: int)
    requires
        lo <= mid <= hi,
        ranked(a, lo, mid),
        ranked(b, mid, hi),
    ensures
        ranked(a + b, lo, hi),
{
    let c = a + b;
    assert forall|i: int, j: int| 0 <= i < j < c.len() implies key_rank((#[trigger] c[i]).0) < key_rank(
        (#[trigger] c[j]).0,
    ) by {
        if i < a.len() {
            assert(c[i] == a[i]);
        } else {
            assert(c[i] == b[i - a.len()]);
        }
        if j < a.len() {
            assert(c[j] == a[j]);
        } else {
            assert(c[j] == b[j - a.len()]);
        }
    }
    assert forall|i: int| 0 <= i < c.len() implies lo <= key_rank((#[trigger] c[i]).0) < hi by {
        if i < a.len() {
            assert(c[i] == a[i]);
        } else {
            assert(c[i] == b[i - a.len()]);
        }
    }
}

proof fn lemma_optional_ranked(key: AttributeKey, v: Option<Seq<char>>)
    ensures
        ranked(optional_entry(key, v), key_rank(key), key_rank(key) + 1),
{
}

/// The resource of a service on Google Cloud names each attribute once:
/// its base and cloud attributes use pairwise distinct keys.
pub proof fn lemma_gcp_resource_keys_distinct(config: TelemetryConfig, b: GcpResourceBuilder)
    ensures
        distinct_keys(base_entries(config) + gcp_entries(b)),
{
    let base = base_entries(config);
    let fixed = seq![
        (AttributeKey::CloudProvider, CLOUD_PROVIDER_GCP@),
        (AttributeKey::CloudPlatform, platform_name(b.platform)),
        (AttributeKey::CloudAccountId, b.project_id@),
        (AttributeKey::GcpProjectId, b.project_id@),
    ];
    let region = optional_entry(AttributeKey::CloudRegion, opt_view(b.region));
    let service = optional_entry(AttributeKey::FaasName, opt_view(b.service_id));
    let revision = optional_entry(AttributeKey::FaasVersion, opt_view(b.revision));
    assert(ranked(base, 0, 2));
    assert(ranked(fixed, 2, 6));
    lemma_optional_ranked(AttributeKey::CloudRegion, opt_view(b.region));
    lemma_optional_ranked(AttributeKey::FaasName, opt_view(b.service_id));
    lemma_optional_ranked(AttributeKey::FaasVersion, opt_view(b.revision));
    lemma_ranked_concat(base, fixed, 0, 2, 6);
    lemma_ranked_concat(base + fixed, region, 0, 6, 7);
    lemma_ranked_concat(base + fixed + region, service, 0, 7, 8);
    lemma_ranked_concat(base + fixed + region + service, revision, 0, 8, 9);
    let all = base_entries(config) + gcp_entries(b);
    assert(all =~= base + fixed + region + service + revision);
    assert forall|i: int, j: int| 0 <= i < j < all.len() implies (#[trigger] all[i]).0 != (#[trigger] all[j]).0 by {
        assert(key_rank(all[i].0) < key_rank(all[j].0));
    }
}

/// Google Cloud attributes of a resource.
#[derive(Debug, Clone)]
pub struct GcpResourceBuilder {
    pub project_id: String,
    pub platform: GcpPlatform,
    pub region: Option<String>,
    pub service_id: Option<String>,
    pub revision: Option<String>,
}

/// The Google Cloud attributes for a project on a platform, with the
/// region, service and revision where known.
pub open spec fn gcp_resource_entries(
    project_id: Seq<char>,
    platform: GcpPlatform,
    region: Option<Seq<char>>,
    service_id: Option<Seq<char>>,
    revision: Option<Seq<char>>,
) -> Seq<(AttributeKey, Seq<char>)> {
    seq![
        (AttributeKey::CloudProvider, CLOUD_PROVIDER_GCP@),
        (AttributeKey::CloudPlatform, platform_name(platform)),
        (AttributeKey::CloudAccountId, project_id),
        (AttributeKey::GcpProjectId, project_id),
    ] + optional_entry(AttributeKey::CloudRegion, region) + optional_entry(AttributeKey::FaasName, service_id)
        + optional_entry(AttributeKey::FaasVersion, revision)
}

/// The Google Cloud attributes a builder contributes, after the base ones.
pub open spec fn gcp_entries(b: GcpResourceBuilder) -> Seq<(AttributeKey, Seq<char>)> {
    gcp_resource_entries(b.project_id@, b.platform, opt_view(b.region), opt_view(b.service_id), opt_view(b.revision))
}

/// The region, service and revision that the environment names.
pub open spec fn env_region(env: EnvSnapshot) -> Option<Seq<char>> {
    first_of(env.var(CLOUD_RUN_REGION@), first_of(env.var(FUNCTION_REGION@), env.var(GAE_REGION@)))
}

pub open spec fn env_service(env: EnvSnapshot) -> Option<Seq<char>> {
    first_of(env.var(K_SERVICE@), first_of(env.var(FUNCTION_NAME@), env.var(GAE_SERVICE@)))
}

pub open spec fn env_revision(env: EnvSnapshot) -> Option<Seq<char>> {
    first_of(env.var(K_REVISION@), env.var(GAE_VERSION@))
}

/// The first of three variables that is set.
fn first_of_three(env: &EnvSnapshot, a: &str, b: &str, c: &str) -> (r: Option<String>)
    ensures
        opt_view(r) == first_of(env.var(a@), first_of(env.var(b@), env.var(c@))),
{
    match env.get(a) {
        Some(v) => Some(v),
        None => env.get_first(b, c),
    }
}

impl GcpResourceBuilder {
    /// Attributes for `project_id` on `platform`, with the region
    /// (`CLOUD_RUN_REGION`, `FUNCTION_REGION`, `GAE_REGION`), the service
    /// (`K_SERVICE`, `FUNCTION_NAME`, `GAE_SERVICE`) and the revision
    /// (`K_REVISION`, `GAE_VERSION`) taken from the environment when set.
    pub fn new(project_id: &str, platform: GcpPlatform, env: &EnvSnapshot) -> (r: GcpResourceBuilder)
        ensures
            r.project_id@ == project_id@,
            r.platform == platform,
            opt_view(r.region) == env_region(*env),
            opt_view(r.service_id) == env_service(*env),
            opt_view(r.revision) == env_revision(*env),
    {
        GcpResourceBuilder {
            project_id: String::from_str(project_id),
            platform,
            region: first_of_three(env, CLOUD_RUN_REGION, FUNCTION_REGION, GAE_REGION),
            service_id: first_of_three(env, K_SERVICE, FUNCTION_NAME, GAE_SERVICE),
            revision: env.get_first(K_REVISION, GAE_VERSION),
        }
    }

    pub fn with_region(self, region: &str) -> (r: GcpResourceBuilder)
        ensures
            opt_view(r.region) == Some(region@),
            r.project_id == self.project_id,
            r.platform == self.platform,
            r.service_id == self.service_id,
            r.revision == self.revision,
    {
        GcpResourceBuilder { region: Some(String::from_str(region)), ..self }
    }

    pub fn with_service(self, service_id: &str) -> (r: GcpResourceBuilder)
        ensures
            opt_view(r.service_id) == Some(service_id@),
            r.project_id == self.project_id,
            r.platform == self.platform,
            r.region == self.region,
            r.revision == self.revision,
    {
        GcpResourceBuilder { service_id: Some(String::from_str(service_id)), ..self }
    }

    pub fn with_revision(self, revision: &str) -> (r: GcpResourceBuilder)
        ensures
            opt_view(r.revision) == Some(revision@),
            r.project_id == self.project_id,
            r.platform == self.platform,
            r.region == self.region,
            r.service_id == self.service_id,
    {
        GcpResourceBuilder { revision: Some(String::from_str(revision)), ..self }
    }

    /// The resource: the base attributes of `config`, then provider,
    /// platform, account and project, then region, service and revision
    /// where known.
    pub fn build(self, config: &TelemetryConfig) -> (r: ResourceAttributes)
        ensures
            lists(r@, base_entries(*config) + gcp_entries(self)),
            starts_with_service(r@, *config),
    {
        let ghost me = self;
        let mut attrs = base_attributes(config);
        let ghost e0 = base_entries(*config);
        push_str(&mut attrs, AttributeKey::CloudProvider, String::from_str(CLOUD_PROVIDER_GCP), Ghost(e0));
        let ghost e1 = e0.push((AttributeKey::CloudProvider, CLOUD_PROVIDER_GCP@));
        push_str(&mut attrs, AttributeKey::CloudPlatform, String::from_str(self.platform.as_str()), Ghost(e1));
        let ghost e2 = e1.push((AttributeKey::CloudPlatform, platform_name(me.platform)));
        push_str(&mut attrs, AttributeKey::CloudAccountId, self.project_id.clone(), Ghost(e2));
        let ghost e3 = e2.push((AttributeKey::CloudAccountId, me.project_id@));
        push_str(&mut attrs, AttributeKey::GcpProjectId, self.project_id, Ghost(e3));
        let ghost e4 = e3.push((AttributeKey::GcpProjectId, me.project_id@));
        let ghost e5 = e4 + optional_entry(AttributeKey::CloudRegion, opt_view(me.region));
        match self.region {
            Some(region) => {
                push_str(&mut attrs, AttributeKey::CloudRegion, region, Ghost(e4));
                assert(e4.push((AttributeKey::CloudRegion, opt_view(me.region)->0)) =~= e5);
            },
            None => {
                assert(e4 =~= e5);
            },
        }
        let ghost e6 = e5 + optional_entry(AttributeKey::FaasName, opt_view(me.service_id));
        match self.service_id {
            Some(service_id) => {
                push_str(&mut attrs, AttributeKey::FaasName, service_id, Ghost(e5));
                assert(e5.push((AttributeKey::FaasName, opt_view(me.service_id)->0)) =~= e6);
            },
            None => {
                assert(e5 =~= e6);
            },
        }
        let ghost e7 = e6 + optional_entry(AttributeKey::FaasVersion, opt_view(me.revision));
        match self.revision {
            Some(revision) => {
                push_str(&mut attrs, AttributeKey::FaasVersion, revision, Ghost(e6));
                assert(e6.push((AttributeKey::FaasVersion, opt_view(me.revision)->0)) =~= e7);
            },
            None => {
                assert(e6 =~= e7);
            },
        }
        assert(e7 =~= base_entries(*config) + gcp_entries(me));
        proof {
            lemma_prefix_lists(attrs@, base_entries(*config), gcp_entries(me));
        }
        ResourceAttributes { attrs }
    }
}

} // verus!
