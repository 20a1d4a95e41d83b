//! The two configuration documents, global and local, and their validation.
use vstd::prelude::*;

use crate::names::{texts, Duplicable, NameSet};
use crate::settings::{
    opt_vars, text_is, ProviderMap, Providers, ProvidersModel, Targets, TargetsModel, VarMap,
    COMMANDS_FEATURE, INSTRUCTION_FEATURE, MCP_FEATURE,
};

verus! {

/// The schema identifier used where no layer names one.
pub const CONFIG_SCHEMA: &'static str = "https://dotagents.soorya-u.dev/schemas/config.schema.json";

/// Whether a name is one of the three known features.
pub open spec fn is_feature_name(f: Seq<char>) -> bool {
    f == COMMANDS_FEATURE@ || f == INSTRUCTION_FEATURE@ || f == MCP_FEATURE@
}

/// The first name of the list that is no known feature.
pub open spec fn first_unknown_feature(fs: Seq<Seq<char>>) -> Option<Seq<char>>
    decreases fs.len(),
{
    if fs.len() == 0 {
        None
    } else if !is_feature_name(fs[0]) {
        Some(fs[0])
    } else {
        first_unknown_feature(fs.drop_first())
    }
}

/// The first name of the list that is not among `declared`.
pub open spec fn first_undeclared(names: Seq<Seq<char>>, declared: Set<Seq<char>>) -> Option<
    Seq<char>,
>
    decreases names.len(),
{
    if names.len() == 0 {
        None
    } else if !declared.contains(names[0]) {
        Some(names[0])
    } else {
        first_undeclared(names.drop_first(), declared)
    }
}

/// The model of a validation error.
pub enum ValidationFault {
    UnknownFeature(Seq<char>),
    UndeclaredCustomProvider(Seq<char>),
    MissingCustomProviderSection,
}

/// What is wrong with the custom targets of a layer, if anything: a
/// non-empty set of custom targets needs a custom provider section that
/// declares each of them.
pub open spec fn custom_fault(targets: Option<TargetsModel>, providers: Option<ProvidersModel>) -> Option<
    ValidationFault,
> {
    let names = match targets {
        Some(t) => t.custom,
        None => None,
    };
    let declared = match providers {
        Some(p) => p.custom,
        None => None,
    };
    match names {
        Some(ns) => if ns.len() == 0 {
            None
        } else {
            match declared {
                None => Some(ValidationFault::MissingCustomProviderSection),
                Some(m) => match first_undeclared(ns, m.dom()) {
                    Some(n) => Some(ValidationFault::UndeclaredCustomProvider(n)),
                    None => None,
                },
            }
        },
        None => None,
    }
}

/// The first fault of a layer: features are checked before targets.
pub open spec fn layer_fault(
    features: Seq<Seq<char>>,
    targets: Option<TargetsModel>,
    providers: Option<ProvidersModel>,
) -> Option<ValidationFault> {
    match first_unknown_feature(features) {
        Some(n) => Some(ValidationFault::UnknownFeature(n)),
        None => custom_fault(targets, providers),
    }
}

/// Why a configuration layer is invalid.
pub enum ValidationError {
    /// A feature name outside the known three.
    UnknownFeature(String),
    /// A custom target with no provider of that name.
    UndeclaredCustomProvider(String),
    /// Custom targets are listed but no custom provider section exists.
    MissingCustomProviderSection,
}

impl View for ValidationError {
    type V = ValidationFault;

    open spec fn view(&self) -> ValidationFault {
        match self {
            ValidationError::UnknownFeature(n) => ValidationFault::UnknownFeature(n@),
            ValidationError::UndeclaredCustomProvider(n) => ValidationFault::UndeclaredCustomProvider(
                n@,
            ),
            ValidationError::MissingCustomProviderSection => ValidationFault::MissingCustomProviderSection,
        }
    }
}

/// The verdict that matches a fault.
pub open spec fn verdict_matches(r: Result<(), ValidationError>, fault: Option<ValidationFault>) -> bool {
    match r {
        Ok(()) => fault.is_none(),
        Err(e) => fault == Some(e@),
    }
}

pub open spec fn opt_targets(o: Option<Targets>) -> Option<TargetsModel> {
    match o {
        Some(t) => Some(t@),
        None => None,
    }
}

pub open spec fn opt_providers_model(o: Option<Providers>) -> Option<ProvidersModel> {
    match o {
        Some(p) => Some(p@),
        None => None,
    }
}

fn check_features(features: &Vec<String>) -> (r: Result<(), ValidationError>)
    ensures
        match r {
            Ok(()) => first_unknown_feature(texts(features@)).is_none(),
            Err(e) => Some(e@) == match first_unknown_feature(texts(features@)) {
                Some(n) => Some(ValidationFault::UnknownFeature(n)),
                None => None,
            },
        },
{
    let ghost fs = texts(features@);
    assert(fs.subrange(0, fs.len() as int) =~= fs);
    let mut i: usize = 0;
    while i < features.len()
        invariant
            i <= features.len(),
            fs == texts(features@),
            first_unknown_feature(fs) == first_unknown_feature(fs.subrange(i as int, fs.len() as int)),
        decreases features.len() - i,
    {
        let f = features[i].as_str();
        let known = text_is(f, COMMANDS_FEATURE) || text_is(f, INSTRUCTION_FEATURE) || text_is(
            f,
            MCP_FEATURE,
        );
        assert(fs.subrange(i as int, fs.len() as int)[0] == fs[i as int]);
        if !known {
            return Err(ValidationError::UnknownFeature(features[i].clone()));
        }
        assert(fs.subrange(i as int, fs.len() as int).drop_first() =~= fs.subrange(
            i + 1,
            fs.len() as int,
        ));
        i = i + 1;
    }
    assert(fs.subrange(i as int, fs.len() as int) =~= Seq::<Seq<char>>::empty());
    Ok(())
}

fn check_declared(names: &NameSet, declared: &ProviderMap) -> (r: Result<(), ValidationError>)
    ensures
        verdict_matches(
            r,
            match first_undeclared(names@, declared@.dom()) {
                Some(n) => Some(ValidationFault::UndeclaredCustomProvider(n)),
                None => None,
            },
        ),
{
    let ghost ns = names@;
    assert(ns.subrange(0, ns.len() as int) =~= ns);
    let n = names.len();
    let mut i: usize = 0;
    while i < n
        invariant
            i <= n,
            n == ns.len(),
            ns == names@,
            first_undeclared(ns, declared@.dom()) == first_undeclared(
                ns.subrange(i as int, ns.len() as int),
                declared@.dom(),
            ),
        decreases n - i,
    {
        let name = names.name_at(i);
        assert(ns.subrange(i as int, ns.len() as int)[0] == ns[i as int]);
        if !declared.contains_key(name.as_str()) {
            assert(first_undeclared(ns.subrange(i as int, ns.len() as int), declared@.dom()) == Some(
                ns[i as int],
            ));
            return Err(ValidationError::UndeclaredCustomProvider(name.clone()));
        }
        assert(ns.subrange(i as int, ns.len() as int).drop_first() =~= ns.subrange(
            i + 1,
            ns.len() as int,
        ));
        i = i + 1;
    }
    assert(ns.subrange(i as int, ns.len() as int) =~= Seq::<Seq<char>>::empty());
    Ok(())
}

fn check_custom_targets(targets: &Option<Targets>, providers: &Option<Providers>) -> (r: Result<
    (),
    ValidationError,
>)
    ensures
        verdict_matches(r, custom_fault(opt_targets(*targets), opt_providers_model(*providers))),
{
    match targets {
        Some(Targets { custom: Some(names), .. }) => {
            if names.is_empty() {
                Ok(())
            } else {
                match providers {
                    Some(Providers { custom: Some(declared), .. }) => check_declared(names, declared),
                    _ => Err(ValidationError::MissingCustomProviderSection),
                }
            }
        },
        _ => Ok(()),
    }
}

fn dup_targets(o: &Option<Targets>) -> (r: Option<Targets>)
    ensures
        opt_targets(r) == opt_targets(*o),
{
    match o {
        Some(t) => Some(t.duplicate()),
        None => None,
    }
}

fn dup_providers(o: &Option<Providers>) -> (r: Option<Providers>)
    ensures
        opt_providers_model(r) == opt_providers_model(*o),
{
    match o {
        Some(p) => Some(p.duplicate()),
        None => None,
    }
}

fn dup_vars(o: &Option<VarMap>) -> (r: Option<VarMap>)
    ensures
        opt_vars(r) == opt_vars(*o),
{
    match o {
        Some(m) => Some(m.duplicate()),
        None => None,
    }
}

/// The model of the global document.
pub struct GlobalModel {
    pub schema: Option<Seq<char>>,
    pub features: Seq<Seq<char>>,
    pub targets: Option<TargetsModel>,
    pub providers: Option<ProvidersModel>,
    pub variables: Option<Map<Seq<char>, Seq<char>>>,
}

/// The shared, checked-in configuration layer.
pub struct GlobalConfig {
    pub schema: Option<String>,
    pub features: Vec<String>,
    pub targets: Option<Targets>,
    pub providers: Option<Providers>,
    pub variables: Option<VarMap>,
}

impl View for GlobalConfig {
    type V = GlobalModel;

    open spec fn view(&self) -> GlobalModel {
        GlobalModel {
            schema: match self.schema {
                Some(s) => Some(s@),
                None => None,
            },
            features: texts(self.features@),
            targets: opt_targets(self.targets),
            providers: opt_providers_model(self.providers),
            variables: opt_vars(self.variables),
        }
    }
}

impl GlobalModel {
    /// The first fault of the document, if any.
    pub open spec fn fault(self) -> Option<ValidationFault> {
        layer_fault(self.features, self.targets, self.providers)
    }
}

impl GlobalConfig {
    /// The default schema, no features, no target category set, no providers.
    pub fn new() -> (r: GlobalConfig)
        ensures
            r@.schema == Some(CONFIG_SCHEMA@),
            r@.features == Seq::<Seq<char>>::empty(),
            r@.targets == Some(TargetsModel::empty()),
            r@.providers.is_none(),
            r@.variables.is_none(),
    {
        let r = GlobalConfig {
            schema: Some(CONFIG_SCHEMA.to_owned()),
            features: Vec::new(),
            targets: Some(Targets::new()),
            providers: None,
            variables: None,
        };
        assert(r@.features =~= Seq::<Seq<char>>::empty());
        r
    }

    /// A document with the default schema, these features and targets.
    pub fn with_features(features: Vec<String>, targets: Targets) -> (r: GlobalConfig)
        ensures
            r@.schema == Some(CONFIG_SCHEMA@),
            r@.features == texts(features@),
            r@.targets == Some(targets@),
            r@.providers.is_none(),
            r@.variables.is_none(),
    {
        GlobalConfig {
            schema: Some(CONFIG_SCHEMA.to_owned()),
            features,
            targets: Some(targets),
            providers: None,
            variables: None,
        }
    }

    /// Checks the feature names, then that each custom target has a custom
    /// provider; reports the first fault found.
    pub fn validate(&self) -> (r: Result<(), ValidationError>)
        ensures
            verdict_matches(r, self@.fault()),
    {
        check_features(&self.features)?;
        check_custom_targets(&self.targets, &self.providers)
    }
}

impl Default for GlobalConfig {
    fn default() -> (r: GlobalConfig)
        ensures
            r@.schema == Some(CONFIG_SCHEMA@),
            r@.features == Seq::<Seq<char>>::empty(),
            r@.targets == Some(TargetsModel::empty()),
            r@.providers.is_none(),
            r@.variables.is_none(),
    {
        Self::new()
    }
}

impl Duplicable for GlobalConfig {
    fn duplicate(&self) -> (r: GlobalConfig) {
        let r = GlobalConfig {
            schema: match &self.schema {
                Some(s) => Some(s.clone()),
                None => None,
            },
            features: self.features.clone(),
            targets: dup_targets(&self.targets),
            providers: dup_providers(&self.providers),
            variables: dup_vars(&self.variables),
        };
        assert(r@.features =~= self@.features);
        r
    }
}

/// The model of the local document.
pub struct LocalModel {
    pub schema: Option<Seq<char>>,
    pub features: Option<Seq<Seq<char>>>,
    pub targets: Option<TargetsModel>,
    pub providers: Option<ProvidersModel>,
    pub variables: Option<Map<Seq<char>, Seq<char>>>,
}

impl LocalModel {
    /// A layer that sets nothing.
    pub open spec fn empty() -> LocalModel {
        LocalModel { schema: None, features: None, targets: None, providers: None, variables: None }
    }

    /// The first fault of the document, if any; absent features are not
    /// checked.
    pub open spec fn fault(self) -> Option<ValidationFault> {
        layer_fault(
            match self.features {
                Some(fs) => fs,
                None => Seq::empty(),
            },
            self.targets,
            self.providers,
        )
    }
}

/// The per-workspace override layer.
pub struct LocalConfig {
    pub schema: Option<String>,
    pub features: Option<Vec<String>>,
    pub targets: Option<Targets>,
    pub providers: Option<Providers>,
    pub variables: Option<VarMap>,
}

impl View for LocalConfig {
    type V = LocalModel;

    open spec fn view(&self) -> LocalModel {
        LocalModel {
            schema: match self.schema {
                Some(s) => Some(s@),
                None => None,
            },
            features: match self.features {
                Some(fs) => Some(texts(fs@)),
                None => None,
            },
            targets: opt_targets(self.targets),
            providers: opt_providers_model(self.providers),
            variables: opt_vars(self.variables),
        }
    }
}

impl LocalConfig {
    /// The default schema and nothing else.
    pub fn new() -> (r: LocalConfig)
        ensures
            r@ == (LocalModel { schema: Some(CONFIG_SCHEMA@), ..LocalModel::empty() }),
    {
        LocalConfig {
            schema: Some(CONFIG_SCHEMA.to_owned()),
            features: None,
            targets: None,
            providers: None,
            variables: None,
        }
    }

    /// The default schema and a feature list that replaces the global one.
    pub fn with_features(features: Vec<String>) -> (r: LocalConfig)
        ensures
            r@ == (LocalModel {
                schema: Some(CONFIG_SCHEMA@),
                features: Some(texts(features@)),
                ..LocalModel::empty()
            }),
    {
        LocalConfig {
            schema: Some(CONFIG_SCHEMA.to_owned()),
            features: Some(features),
            targets: None,
            providers: None,
            variables: None,
        }
    }

    /// The default schema and providers to merge over the global ones.
    pub fn with_providers(providers: Providers) -> (r: LocalConfig)
        ensures
            r@ == (LocalModel {
                schema: Some(CONFIG_SCHEMA@),
                providers: Some(providers@),
                ..LocalModel::empty()
            }),
    {
        LocalConfig {
            schema: Some(CONFIG_SCHEMA.to_owned()),
            features: None,
            targets: None,
            providers: Some(providers),
            variables: None,
        }
    }

    /// Checks the feature names if present, then that each custom target
    /// has a custom provider; reports the first fault found.
    pub fn validate(&self) -> (r: Result<(), ValidationError>)
        ensures
            verdict_matches(r, self@.fault()),
    {
        match &self.features {
            Some(fs) => {
                check_features(fs)?;
            },
            None => {
                assert(first_unknown_feature(Seq::<Seq<char>>::empty()).is_none());
            },
        }
        check_custom_targets(&self.targets, &self.providers)
    }

    /// Whether the layer sets nothing at all.
    pub fn is_empty(&self) -> (r: bool)
        ensures
            r == (self@ == LocalModel::empty()),
    {
        self.schema.is_none() && self.features.is_none() && self.targets.is_none()
            && self.providers.is_none() && self.variables.is_none()
    }
}

impl Default for LocalConfig {
    fn default() -> (r: LocalConfig)
        ensures
            r@ == (LocalModel { schema: Some(CONFIG_SCHEMA@), ..LocalModel::empty() }),
    {
        Self::new()
    }
}

} // verus!
