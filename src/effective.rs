//! The effective configuration: the merge of the two layers, and the choice
//! of the providers that take part in deploying a feature.
use vstd::prelude::*;

use crate::cache::{CacheConfig, CacheModel};
use crate::layers::{
    opt_providers_model, GlobalConfig, GlobalModel, LocalConfig, LocalModel, ValidationError,
    CONFIG_SCHEMA,
};
use crate::names::{dedup, texts, Duplicable, NameMap, NameSet};
use crate::settings::{
    merge_vars, opt_vars, AbilityModel, CapabilityModel, ConfigAgentSettings, ProviderMap,
    Providers, ProvidersModel, Target, Targets, TargetsModel, VarMap,
};

verus! {

/// The model of the effective configuration.
pub struct AppModel {
    pub schema: Seq<char>,
    pub features: Seq<Seq<char>>,
    pub targets: TargetsModel,
    pub providers: Option<ProvidersModel>,
    pub variables: Option<Map<Seq<char>, Seq<char>>>,
}

/// Target sets of the two layers merged; a missing layer counts as one
/// that sets no category.
pub open spec fn merge_layer_targets(g: Option<TargetsModel>, l: Option<TargetsModel>) -> TargetsModel {
    match (g, l) {
        (None, None) => TargetsModel::empty(),
        (Some(g), None) => g,
        (None, Some(l)) => l,
        (Some(g), Some(l)) => g.merge(l),
    }
}

/// Providers of the two layers merged; absent in both stays absent.
pub open spec fn merge_layer_providers(g: Option<ProvidersModel>, l: Option<ProvidersModel>) -> Option<
    ProvidersModel,
> {
    match (g, l) {
        (None, None) => None,
        (Some(g), None) => Some(g),
        (None, Some(l)) => Some(l),
        (Some(g), Some(l)) => Some(g.merge(l)),
    }
}

/// The effective configuration of a global and a local layer.
pub open spec fn effective(g: GlobalModel, l: LocalModel) -> AppModel {
    AppModel {
        schema: match l.schema {
            Some(s) => s,
            None => match g.schema {
                Some(s) => s,
                None => CONFIG_SCHEMA@,
            },
        },
        features: dedup(
            match l.features {
                Some(fs) => fs,
                None => g.features,
            },
        ),
        targets: merge_layer_targets(g.targets, l.targets),
        providers: merge_layer_providers(g.providers, l.providers),
        variables: merge_vars(g.variables, l.variables),
    }
}

/// Which layer a validation error was found in.
#[derive(Clone, Copy, Debug, PartialEq, Eq, Structural)]
pub enum Layer {
    Global,
    Local,
}

/// A validation error with the layer it was found in.
pub struct LayerError {
    pub layer: Layer,
    pub error: ValidationError,
}

/// The settings of a capability that take part in deploying a feature:
/// those of a globally enabled feature, and those explicitly disabled.
pub open spec fn takes_part(a: AbilityModel, feature: Seq<char>, enabled: bool) -> bool {
    match a.capability(feature) {
        Some(c) => enabled || c.disabled == Some(true),
        None => false,
    }
}

/// The providers of one map that take part in deploying a feature, with
/// their settings for it.
pub open spec fn select_from(m: Map<Seq<char>, AbilityModel>, feature: Seq<char>, enabled: bool) -> Map<
    Seq<char>,
    CapabilityModel,
> {
    Map::new(
        |k: Seq<char>| m.contains_key(k) && takes_part(m[k], feature, enabled),
        |k: Seq<char>| m[k].capability(feature).unwrap(),
    )
}

pub open spec fn select_opt(m: Option<Map<Seq<char>, AbilityModel>>, feature: Seq<char>, enabled: bool) -> Map<
    Seq<char>,
    CapabilityModel,
> {
    match m {
        Some(m) => select_from(m, feature, enabled),
        None => Map::empty(),
    }
}

/// The providers that take part in deploying a feature, by name; the
/// categories are laid one over the other in the order ide, cli, custom.
pub open spec fn selection(p: Option<ProvidersModel>, feature: Seq<char>, enabled: bool) -> Map<
    Seq<char>,
    CapabilityModel,
> {
    match p {
        Some(p) => select_opt(p.ide, feature, enabled).union_prefer_right(
            select_opt(p.cli, feature, enabled),
        ).union_prefer_right(select_opt(p.custom, feature, enabled)),
        None => Map::empty(),
    }
}

/// Adds to `acc` the providers of `map` that take part in deploying
/// `feature`, each replacing an entry of the same name.
fn select_category(
    acc: &mut NameMap<ConfigAgentSettings>,
    map: &ProviderMap,
    feature: &str,
    enabled: bool,
)
    ensures
        final(acc)@ == old(acc)@.union_prefer_right(select_from(map@, feature@, enabled)),
{
    let n = map.len();
    let ghost start = acc@;
    let mut i: usize = 0;
    while i < n
        invariant
            i <= n,
            n == map.keys().len(),
            map.keys().no_duplicates(),
            map@.dom() == map.keys().to_set(),
            acc@ == start.union_prefer_right(
                select_from(map@.restrict(map.keys().subrange(0, i as int).to_set()), feature@, enabled),
            ),
        decreases n - i,
    {
        let key = map.key_at(i);
        let value = map.value_at(i);
        let ghost done = map.keys().subrange(0, i as int).to_set();
        let ghost next = map.keys().subrange(0, i + 1).to_set();
        proof {
            assert(map.keys().subrange(0, i + 1) =~= map.keys().subrange(0, i as int).push(key@));
            map.keys().subrange(0, i as int).lemma_push_to_set_commute(key@);
        }
        match value.get_config(feature) {
            Some(config) => {
                if enabled || config.disabled == Some(true) {
                    acc.insert(key.clone(), config);
                }
            },
            None => {},
        }
        proof {
            assert(acc@ =~= start.union_prefer_right(
                select_from(map@.restrict(next), feature@, enabled),
            ));
        }
        i = i + 1;
    }
    proof {
        assert(map.keys().subrange(0, n as int) =~= map.keys());
        assert(map@.restrict(map.keys().to_set()) =~= map@);
    }
}

fn select_opt_category(
    acc: &mut NameMap<ConfigAgentSettings>,
    map: &Option<ProviderMap>,
    feature: &str,
    enabled: bool,
)
    ensures
        final(acc)@ == old(acc)@.union_prefer_right(
            select_opt(
                match map {
                    Some(m) => Some(m@),
                    None => None,
                },
                feature@,
                enabled,
            ),
        ),
{
    match map {
        Some(m) => select_category(acc, m, feature, enabled),
        None => {
            assert(acc@.union_prefer_right(Map::empty()) =~= acc@);
        },
    }
}

/// The effective configuration: a schema, the enabled features, target
/// names per category, providers and template variables.
pub struct AppConfig {
    pub schema: String,
    pub features: NameSet,
    pub targets: Targets,
    pub providers: Option<Providers>,
    pub variables: Option<VarMap>,
}

impl View for AppConfig {
    type V = AppModel;

    open spec fn view(&self) -> AppModel {
        AppModel {
            schema: self.schema@,
            features: self.features@,
            targets: self.targets@,
            providers: opt_providers_model(self.providers),
            variables: opt_vars(self.variables),
        }
    }
}

fn dup_providers(o: &Option<Providers>) -> (r: Option<Providers>)
    ensures
        opt_providers_model(r) == opt_providers_model(*o),
{
    match o {
        Some(p) => Some(p.duplicate()),
        None => None,
    }
}

fn dup_texts(v: &Vec<String>) -> (r: Vec<String>)
    ensures
        texts(r@) == texts(v@),
{
    let r = v.clone();
    assert(texts(r@) =~= texts(v@));
    r
}

impl AppConfig {
    /// The default schema and nothing configured.
    pub fn new() -> (r: AppConfig)
        ensures
            r@ == (AppModel {
                schema: CONFIG_SCHEMA@,
                features: Seq::empty(),
                targets: TargetsModel::empty(),
                providers: None,
                variables: None,
            }),
    {
        AppConfig {
            schema: CONFIG_SCHEMA.to_owned(),
            features: NameSet::new(),
            targets: Targets::new(),
            providers: None,
            variables: None,
        }
    }

    /// Whether a feature is enabled.
    pub fn has_feature(&self, feature: &str) -> (r: bool)
        ensures
            r == self@.features.contains(feature@),
    {
        self.features.contains(feature)
    }

    /// The providers that take part in deploying `feature`, with their
    /// settings for it: every provider configured for the feature when it is
    /// enabled, and otherwise those that disable it explicitly. A name found
    /// in several categories keeps the entry of the last of ide, cli, custom.
    pub fn get_feature_providers(&self, feature: &str) -> (r: NameMap<ConfigAgentSettings>)
        ensures
            r@ == selection(self@.providers, feature@, self@.features.contains(feature@)),
    {
        let mut acc: NameMap<ConfigAgentSettings> = NameMap::new();
        match &self.providers {
            Some(providers) => {
                let enabled = self.has_feature(feature);
                select_opt_category(&mut acc, &providers.ide, feature, enabled);
                select_opt_category(&mut acc, &providers.cli, feature, enabled);
                select_opt_category(&mut acc, &providers.custom, feature, enabled);
                assert(Map::<Seq<char>, CapabilityModel>::empty().union_prefer_right(
                    select_opt(providers@.ide, feature@, enabled),
                ) =~= select_opt(providers@.ide, feature@, enabled));
            },
            None => {},
        }
        acc
    }

    /// Merges the two layers: the local schema, else the global one, else
    /// the default; the local feature list if present, else the global one;
    /// targets, providers and variables merged with the local layer on top.
    pub fn from_configs(global: &GlobalConfig, local: &LocalConfig) -> (r: AppConfig)
        ensures
            r@ == effective(global@, local@),
    {
        let schema = match &local.schema {
            Some(s) => s.clone(),
            None => match &global.schema {
                Some(s) => s.clone(),
                None => CONFIG_SCHEMA.to_owned(),
            },
        };
        let feature_list = match &local.features {
            Some(fs) => dup_texts(fs),
            None => dup_texts(&global.features),
        };
        let features = NameSet::from_names(feature_list);
        let targets = match (&global.targets, &local.targets) {
            (None, None) => Targets::new(),
            (Some(g), None) => g.duplicate(),
            (None, Some(l)) => l.duplicate(),
            (Some(g), Some(l)) => g.merge(l),
        };
        let providers = match (&global.providers, &local.providers) {
            (None, None) => None,
            (Some(g), None) => Some(g.duplicate()),
            (None, Some(l)) => Some(l.duplicate()),
            (Some(g), Some(l)) => Some(g.merge(l)),
        };
        let variables = match (&global.variables, &local.variables) {
            (None, None) => None,
            (Some(g), None) => Some(g.duplicate()),
            (None, Some(l)) => Some(l.duplicate()),
            (Some(g), Some(l)) => {
                let mut vars = g.duplicate();
                vars.extend_from(l);
                Some(vars)
            },
        };
        AppConfig { schema, features, targets, providers, variables }
    }

    /// Validates the local layer, then the global one, and merges them; an
    /// error names the layer it was found in.
    pub fn from_layers(global: &GlobalConfig, local: &LocalConfig) -> (r: Result<AppConfig, LayerError>)
        ensures
            match r {
                Ok(c) => local@.fault().is_none() && global@.fault().is_none() && c@ == effective(
                    global@,
                    local@,
                ),
                Err(e) => if local@.fault().is_some() {
                    e.layer == Layer::Local && local@.fault() == Some(e.error@)
                } else {
                    e.layer == Layer::Global && global@.fault() == Some(e.error@)
                },
            },
    {
        match local.validate() {
            Ok(()) => {},
            Err(error) => {
                return Err(LayerError { layer: Layer::Local, error });
            },
        }
        match global.validate() {
            Ok(()) => {},
            Err(error) => {
                return Err(LayerError { layer: Layer::Global, error });
            },
        }
        Ok(AppConfig::from_configs(global, local))
    }

    /// An effective configuration holding the schema and providers of a
    /// cache projection, and nothing else.
    pub fn from_cache(cache: &CacheConfig) -> (r: AppConfig)
        ensures
            r@ == (AppModel {
                schema: cache@.schema,
                features: Seq::empty(),
                targets: TargetsModel::empty(),
                providers: cache@.providers,
                variables: None,
            }),
    {
        AppConfig {
            schema: cache.schema.clone(),
            features: NameSet::new(),
            targets: Targets::new(),
            providers: dup_providers(&cache.providers),
            variables: None,
        }
    }

    /// The cache projection: schema and providers only.
    pub fn to_cache(&self) -> (r: CacheConfig)
        ensures
            r@ == (CacheModel { schema: self@.schema, providers: self@.providers }),
    {
        CacheConfig { schema: self.schema.clone(), providers: dup_providers(&self.providers) }
    }
}

impl Default for AppConfig {
    fn default() -> (r: AppConfig)
        ensures
            r@ == (AppModel {
                schema: CONFIG_SCHEMA@,
                features: Seq::empty(),
                targets: TargetsModel::empty(),
                providers: None,
                variables: None,
            }),
    {
        Self::new()
    }
}

} // verus!
