//! The cache projection persisted between runs, and the drift report that
//! compares an effective configuration with it.
use vstd::prelude::*;

use crate::effective::AppConfig;
use crate::layers::{opt_providers_model, CONFIG_SCHEMA};
use crate::builder::{insert_into, with_provider};
use crate::names::{Duplicable, NameMap};
use crate::settings::{
    target_named, AbilityModel, CapabilityModel, ConfigAgentAbilitySettings,
    ConfigAgentSettings, ProviderMap, Providers, ProvidersModel, Target, COMMANDS_FEATURE,
    INSTRUCTION_FEATURE, MCP_FEATURE,
};

verus! {

/// The model of a cache projection.
pub struct CacheModel {
    pub schema: Seq<char>,
    pub providers: Option<ProvidersModel>,
}

/// The settings of one capability of one provider in optional providers.
pub open spec fn lookup(p: Option<ProvidersModel>, kind: Target, name: Seq<char>, feature: Seq<char>) -> Option<
    CapabilityModel,
> {
    match p {
        Some(p) => p.entry(kind, name, feature),
        None => None,
    }
}

/// Whether a recorded hash is present and not empty.
pub open spec fn valid_hash(c: Option<CapabilityModel>) -> bool {
    match c {
        Some(c) => match c.hash {
            Some(h) => h.len() > 0,
            None => false,
        },
        None => false,
    }
}

/// The schema and providers of the last deployment.
pub struct CacheConfig {
    pub schema: String,
    pub providers: Option<Providers>,
}

impl View for CacheConfig {
    type V = CacheModel;

    open spec fn view(&self) -> CacheModel {
        CacheModel { schema: self.schema@, providers: opt_providers_model(self.providers) }
    }
}

impl CacheConfig {
    /// The default schema and no providers.
    pub fn new() -> (r: CacheConfig)
        ensures
            r@ == (CacheModel { schema: CONFIG_SCHEMA@, providers: None }),
    {
        CacheConfig { schema: CONFIG_SCHEMA.to_owned(), providers: None }
    }

    /// The default schema and these providers.
    pub fn with_providers(providers: Providers) -> (r: CacheConfig)
        ensures
            r@ == (CacheModel { schema: CONFIG_SCHEMA@, providers: Some(providers@) }),
    {
        CacheConfig { schema: CONFIG_SCHEMA.to_owned(), providers: Some(providers) }
    }

    /// Whether the projection records a non-empty hash for a capability of a
    /// provider; an unknown category or feature name has none.
    pub fn has_valid_hash(&self, target_type: &str, target_name: &str, feature: &str) -> (r: bool)
        ensures
            r == match target_named(target_type@) {
                Some(kind) => valid_hash(lookup(self@.providers, kind, target_name@, feature@)),
                None => false,
            },
    {
        let kind = match Target::from_name(target_type) {
            Some(k) => k,
            None => {
                return false;
            },
        };
        match &self.providers {
            Some(providers) => match providers.category(kind) {
                Some(map) => match map.get(target_name) {
                    Some(settings) => match settings.get_config(feature) {
                        Some(config) => match &config.hash {
                            Some(h) => !h.as_str().is_empty(),
                            None => false,
                        },
                        None => false,
                    },
                    None => false,
                },
                None => false,
            },
            None => false,
        }
    }

    /// Whether the projection records no providers at all.
    pub fn is_empty(&self) -> (r: bool)
        ensures
            r == self@.providers.is_none(),
    {
        self.providers.is_none()
    }
}

impl Default for CacheConfig {
    fn default() -> (r: CacheConfig)
        ensures
            r@ == (CacheModel { schema: CONFIG_SCHEMA@, providers: None }),
    {
        Self::new()
    }
}

/// How a capability of a provider compares with the last deployment.
#[derive(Clone, Copy, Debug, PartialEq, Eq, Structural)]
pub enum DriftStatus {
    /// Nothing was recorded for it.
    New,
    /// A hash was recorded and the current one differs.
    Changed,
    /// Recorded, and no recorded hash differs.
    Unchanged,
}

/// The status of current settings against the recorded ones.
pub open spec fn classify(current: CapabilityModel, previous: Option<CapabilityModel>) -> DriftStatus {
    match previous {
        None => DriftStatus::New,
        Some(p) => if p.hash.is_some() && p.hash != current.hash {
            DriftStatus::Changed
        } else {
            DriftStatus::Unchanged
        },
    }
}

/// The status of a capability of a provider, if the current providers
/// configure it.
pub open spec fn drift_status(
    current: Option<ProvidersModel>,
    previous: Option<ProvidersModel>,
    kind: Target,
    name: Seq<char>,
    feature: Seq<char>,
) -> Option<DriftStatus> {
    match lookup(current, kind, name, feature) {
        Some(c) => Some(classify(c, lookup(previous, kind, name, feature))),
        None => None,
    }
}

/// The statuses of the three capabilities of one provider.
#[derive(Clone, Copy, Debug, PartialEq, Eq, Structural)]
pub struct DriftRecord {
    pub mcp: Option<DriftStatus>,
    pub instructions: Option<DriftStatus>,
    pub commands: Option<DriftStatus>,
}

impl View for DriftRecord {
    type V = DriftRecord;

    open spec fn view(&self) -> DriftRecord {
        *self
    }
}

impl Duplicable for DriftRecord {
    fn duplicate(&self) -> (r: DriftRecord) {
        *self
    }
}

impl DriftRecord {
    /// The status of the capability that a feature name selects.
    pub open spec fn get(self, feature: Seq<char>) -> Option<DriftStatus> {
        if feature == MCP_FEATURE@ {
            self.mcp
        } else if feature == INSTRUCTION_FEATURE@ {
            self.instructions
        } else if feature == COMMANDS_FEATURE@ {
            self.commands
        } else {
            None
        }
    }
}

pub open spec fn status_of(current: Option<CapabilityModel>, previous: Option<CapabilityModel>) -> Option<
    DriftStatus,
> {
    match current {
        Some(c) => Some(classify(c, previous)),
        None => None,
    }
}

/// The record of a provider against its recorded settings, if any.
pub open spec fn record_of(current: AbilityModel, previous: Option<AbilityModel>) -> DriftRecord {
    let p = match previous {
        Some(p) => p,
        None => AbilityModel::empty(),
    };
    DriftRecord {
        mcp: status_of(current.mcp, p.mcp),
        instructions: status_of(current.instructions, p.instructions),
        commands: status_of(current.commands, p.commands),
    }
}

/// The records of the providers of one category.
pub open spec fn drift_map(
    current: Option<Map<Seq<char>, AbilityModel>>,
    previous: Option<Map<Seq<char>, AbilityModel>>,
) -> Map<Seq<char>, DriftRecord> {
    match current {
        Some(c) => Map::new(
            |k: Seq<char>| c.contains_key(k),
            |k: Seq<char>|
                record_of(
                    c[k],
                    match previous {
                        Some(p) => if p.contains_key(k) {
                            Some(p[k])
                        } else {
                            None
                        },
                        None => None,
                    },
                ),
        ),
        None => Map::empty(),
    }
}

/// For each category, a record per provider of the effective configuration.
pub struct DriftReport {
    pub ide: NameMap<DriftRecord>,
    pub cli: NameMap<DriftRecord>,
    pub custom: NameMap<DriftRecord>,
}

impl DriftReport {
    pub open spec fn records(&self, kind: Target) -> Map<Seq<char>, DriftRecord> {
        match kind {
            Target::Ide => self.ide@,
            Target::Cli => self.cli@,
            Target::Custom => self.custom@,
        }
    }

    /// The status that the report gives a capability of a provider.
    pub open spec fn status_model(&self, kind: Target, name: Seq<char>, feature: Seq<char>) -> Option<
        DriftStatus,
    > {
        if self.records(kind).contains_key(name) {
            self.records(kind)[name].get(feature)
        } else {
            None
        }
    }

    /// The status of a capability of a provider; `None` where the effective
    /// configuration does not configure it.
    pub fn status(&self, kind: Target, name: &str, feature: &str) -> (r: Option<DriftStatus>)
        ensures
            r == self.status_model(kind, name@, feature@),
    {
        let records = match kind {
            Target::Ide => &self.ide,
            Target::Cli => &self.cli,
            Target::Custom => &self.custom,
        };
        match records.get(name) {
            Some(rec) => {
                if crate::settings::text_is(feature, MCP_FEATURE) {
                    rec.mcp
                } else if crate::settings::text_is(feature, INSTRUCTION_FEATURE) {
                    rec.instructions
                } else if crate::settings::text_is(feature, COMMANDS_FEATURE) {
                    rec.commands
                } else {
                    None
                }
            },
            None => None,
        }
    }
}

fn classify_settings(current: &ConfigAgentSettings, previous: &ConfigAgentSettings) -> (r: DriftStatus)
    ensures
        r == classify(current@, Some(previous@)),
{
    match &previous.hash {
        Some(old_hash) => match &current.hash {
            Some(new_hash) => if crate::names::same_text(old_hash, new_hash) {
                DriftStatus::Unchanged
            } else {
                DriftStatus::Changed
            },
            None => DriftStatus::Changed,
        },
        None => DriftStatus::Unchanged,
    }
}

fn status_of_settings(current: &Option<ConfigAgentSettings>, previous: &Option<ConfigAgentSettings>) -> (r:
    Option<DriftStatus>)
    ensures
        r == status_of(
            crate::settings::opt_capability(*current),
            crate::settings::opt_capability(*previous),
        ),
{
    match current {
        Some(c) => match previous {
            Some(p) => Some(classify_settings(c, p)),
            None => Some(DriftStatus::New),
        },
        None => None,
    }
}

fn record_of_settings(current: &ConfigAgentAbilitySettings, previous: Option<&ConfigAgentAbilitySettings>) -> (r:
    DriftRecord)
    ensures
        r == record_of(
            current@,
            match previous {
                Some(p) => Some(p@),
                None => None,
            },
        ),
{
    match previous {
        Some(p) => DriftRecord {
            mcp: status_of_settings(&current.mcp, &p.mcp),
            instructions: status_of_settings(&current.instructions, &p.instructions),
            commands: status_of_settings(&current.commands, &p.commands),
        },
        None => {
            let none: Option<ConfigAgentSettings> = None;
            DriftRecord {
                mcp: status_of_settings(&current.mcp, &none),
                instructions: status_of_settings(&current.instructions, &none),
                commands: status_of_settings(&current.commands, &none),
            }
        },
    }
}

fn drift_category(current: &Option<ProviderMap>, previous: &Option<ProviderMap>) -> (r: NameMap<
    DriftRecord,
>)
    ensures
        r@ == drift_map(
            crate::settings::opt_providers(*current),
            crate::settings::opt_providers(*previous),
        ),
{
    let mut out: NameMap<DriftRecord> = NameMap::new();
    match current {
        Some(cur) => {
            let ghost prev = crate::settings::opt_providers(*previous);
            let ghost want = drift_map(Some(cur@), prev);
            let n = cur.len();
            let mut i: usize = 0;
            while i < n
                invariant
                    i <= n,
                    n == cur.keys().len(),
                    cur.keys().no_duplicates(),
                    cur@.dom() == cur.keys().to_set(),
                    prev == crate::settings::opt_providers(*previous),
                    want == drift_map(Some(cur@), prev),
                    out@ == want.restrict(cur.keys().subrange(0, i as int).to_set()),
                decreases n - i,
            {
                let key = cur.key_at(i);
                let value = cur.value_at(i);
                let ghost next = cur.keys().subrange(0, i + 1).to_set();
                proof {
                    assert(cur.keys().subrange(0, i + 1) =~= cur.keys().subrange(0, i as int).push(
                        key@,
                    ));
                    cur.keys().subrange(0, i as int).lemma_push_to_set_commute(key@);
                }
                let before = match previous {
                    Some(p) => p.get(key.as_str()),
                    None => None,
                };
                let rec = record_of_settings(value, before);
                out.insert(key.clone(), rec);
                proof {
                    assert(out@ =~= want.restrict(next));
                }
                i = i + 1;
            }
            proof {
                assert(cur.keys().subrange(0, n as int) =~= cur.keys());
                assert(want.restrict(cur.keys().to_set()) =~= want);
            }
        },
        None => {},
    }
    out
}

/// Compares the providers of an effective configuration with a previous
/// projection: each configured capability of each provider is new,
/// changed or unchanged.
pub fn diff(effective: &AppConfig, previous: &CacheConfig) -> (r: DriftReport)
    ensures
        forall|kind: Target, name: Seq<char>|
            #[trigger] r.records(kind).contains_key(name) <==> match effective@.providers {
                Some(p) => match p.category(kind) {
                    Some(m) => m.contains_key(name),
                    None => false,
                },
                None => false,
            },
        forall|kind: Target, name: Seq<char>, feature: Seq<char>|
            #[trigger] r.status_model(kind, name, feature) == drift_status(
                effective@.providers,
                previous@.providers,
                kind,
                name,
                feature,
            ),
{
    let none: Option<ProviderMap> = None;
    let (cur_ide, cur_cli, cur_custom) = match &effective.providers {
        Some(p) => (&p.ide, &p.cli, &p.custom),
        None => (&none, &none, &none),
    };
    let (prev_ide, prev_cli, prev_custom) = match &previous.providers {
        Some(p) => (&p.ide, &p.cli, &p.custom),
        None => (&none, &none, &none),
    };
    let r = DriftReport {
        ide: drift_category(cur_ide, prev_ide),
        cli: drift_category(cur_cli, prev_cli),
        custom: drift_category(cur_custom, prev_custom),
    };
    proof {
        assert forall|kind: Target, name: Seq<char>, feature: Seq<char>|
            #[trigger] r.status_model(kind, name, feature) == drift_status(
                effective@.providers,
                previous@.providers,
                kind,
                name,
                feature,
            ) by {
            match kind {
                Target::Ide => {},
                Target::Cli => {},
                Target::Custom => {},
            }
        }
    }
    r
}

/// Builds a cache projection provider by provider; every category starts
/// present and empty.
pub struct CacheConfigBuilder {
    ide: Option<ProviderMap>,
    cli: Option<ProviderMap>,
    custom: Option<ProviderMap>,
}

impl View for CacheConfigBuilder {
    type V = ProvidersModel;

    closed spec fn view(&self) -> ProvidersModel {
        ProvidersModel {
            ide: crate::settings::opt_providers(self.ide),
            cli: crate::settings::opt_providers(self.cli),
            custom: crate::settings::opt_providers(self.custom),
        }
    }
}

impl CacheConfigBuilder {
    pub fn new() -> (r: CacheConfigBuilder)
        ensures
            r@ == (ProvidersModel {
                ide: Some(Map::empty()),
                cli: Some(Map::empty()),
                custom: Some(Map::empty()),
            }),
    {
        CacheConfigBuilder {
            ide: Some(NameMap::new()),
            cli: Some(NameMap::new()),
            custom: Some(NameMap::new()),
        }
    }

    /// Records the settings of a named provider of a category, replacing
    /// earlier settings of that name.
    pub fn add_provider(
        self,
        provider_type: Target,
        provider_name: &str,
        provider_settings: ConfigAgentAbilitySettings,
    ) -> (r: CacheConfigBuilder)
        ensures
            r@ == with_provider(self@, provider_type, provider_name@, provider_settings@),
    {
        let CacheConfigBuilder { ide, cli, custom } = self;
        match provider_type {
            Target::Ide => CacheConfigBuilder {
                ide: Some(insert_into(ide, provider_name, provider_settings)),
                cli,
                custom,
            },
            Target::Cli => CacheConfigBuilder {
                ide,
                cli: Some(insert_into(cli, provider_name, provider_settings)),
                custom,
            },
            Target::Custom => CacheConfigBuilder {
                ide,
                cli,
                custom: Some(insert_into(custom, provider_name, provider_settings)),
            },
        }
    }

    /// The projection: the default schema and the recorded providers.
    pub fn build(self) -> (r: CacheConfig)
        ensures
            r@ == (CacheModel { schema: CONFIG_SCHEMA@, providers: Some(self@) }),
    {
        CacheConfig {
            schema: CONFIG_SCHEMA.to_owned(),
            providers: Some(Providers { ide: self.ide, cli: self.cli, custom: self.custom }),
        }
    }
}

/// The state kept between runs: the cache projection of the last deployment.
pub struct Settings {
    cache: CacheConfig,
}

impl Settings {
    /// The projection held.
    pub closed spec fn cache_model(&self) -> CacheModel {
        self.cache@
    }

    /// An empty projection with the default schema.
    pub fn new() -> (r: Settings)
        ensures
            r.cache_model() == (CacheModel { schema: CONFIG_SCHEMA@, providers: None }),
    {
        Settings { cache: CacheConfig::new() }
    }

    /// The state holding a projection read back from a previous run.
    pub fn from_cache(cache: CacheConfig) -> (r: Settings)
        ensures
            r.cache_model() == cache@,
    {
        Settings { cache }
    }

    pub fn cache(&self) -> (r: &CacheConfig)
        ensures
            r@ == self.cache_model(),
    {
        &self.cache
    }
}

} // verus!
