//! Step-by-step construction of configuration layers and provider settings.
use vstd::prelude::*;

use crate::layers::{
    opt_providers_model, opt_targets, GlobalConfig, GlobalModel, LocalConfig, LocalModel,
    CONFIG_SCHEMA,
};
use crate::names::{texts, NameMap, NameSet};
use crate::settings::{
    opt_capability, opt_providers, opt_text, opt_vars, AbilityModel, CapabilityModel,
    ConfigAgentAbilitySettings, ConfigAgentSettings, ProviderMap, Providers, ProvidersModel,
    Target, Targets, TargetsModel, VarMap, COMMANDS_FEATURE, INSTRUCTION_FEATURE, MCP_FEATURE,
};

verus! {

/// The features selected by three switches, in the order commands,
/// instructions, mcp.
pub open spec fn feature_list(commands: bool, instructions: bool, mcp: bool) -> Seq<Seq<char>> {
    (if commands {
        seq![COMMANDS_FEATURE@]
    } else {
        Seq::empty()
    }) + (if instructions {
        seq![INSTRUCTION_FEATURE@]
    } else {
        Seq::empty()
    }) + (if mcp {
        seq![MCP_FEATURE@]
    } else {
        Seq::empty()
    })
}

/// `None` for no names, the names otherwise.
pub open spec fn unless_empty(names: Seq<Seq<char>>) -> Option<Seq<Seq<char>>> {
    if names.len() == 0 {
        None
    } else {
        Some(names)
    }
}

/// Target sets with one category replaced.
pub open spec fn with_category(t: TargetsModel, kind: Target, names: Seq<Seq<char>>) -> TargetsModel {
    match kind {
        Target::Ide => TargetsModel { ide: Some(names), ..t },
        Target::Cli => TargetsModel { cli: Some(names), ..t },
        Target::Custom => TargetsModel { custom: Some(names), ..t },
    }
}

/// Providers with one named provider of a category set.
pub open spec fn with_provider(
    p: ProvidersModel,
    kind: Target,
    name: Seq<char>,
    settings: AbilityModel,
) -> ProvidersModel {
    let m = match p.category(kind) {
        Some(m) => m,
        None => Map::empty(),
    }.insert(name, settings);
    match kind {
        Target::Ide => ProvidersModel { ide: Some(m), ..p },
        Target::Cli => ProvidersModel { cli: Some(m), ..p },
        Target::Custom => ProvidersModel { custom: Some(m), ..p },
    }
}

/// Builds a global or a local configuration layer.
pub struct ApplicationConfigBuilder {
    schema: Option<String>,
    features: Option<Vec<String>>,
    targets: Option<Targets>,
    providers: Option<Providers>,
    variables: Option<VarMap>,
}

impl View for ApplicationConfigBuilder {
    type V = LocalModel;

    closed spec fn view(&self) -> LocalModel {
        LocalModel {
            schema: opt_text(self.schema),
            features: match self.features {
                Some(fs) => Some(texts(fs@)),
                None => None,
            },
            targets: opt_targets(self.targets),
            providers: opt_providers_model(self.providers),
            variables: opt_vars(self.variables),
        }
    }
}

pub(crate) fn insert_into(map: Option<ProviderMap>, name: &str, settings: ConfigAgentAbilitySettings) -> (r:
    ProviderMap)
    ensures
        r@ == match opt_providers(map) {
            Some(m) => m,
            None => Map::empty(),
        }.insert(name@, settings@),
{
    let mut m = match map {
        Some(m) => m,
        None => NameMap::new(),
    };
    m.insert(name.to_owned(), settings);
    m
}

impl ApplicationConfigBuilder {
    /// The default schema and nothing else.
    pub fn new() -> (r: ApplicationConfigBuilder)
        ensures
            r@ == (LocalModel { schema: Some(CONFIG_SCHEMA@), ..LocalModel::empty() }),
    {
        ApplicationConfigBuilder {
            schema: Some(CONFIG_SCHEMA.to_owned()),
            features: None,
            targets: None,
            providers: None,
            variables: None,
        }
    }

    /// Selects the features whose switch is on.
    pub fn add_features(self, commands: bool, instructions: bool, mcp: bool) -> (r:
        ApplicationConfigBuilder)
        ensures
            r@ == (LocalModel { features: Some(feature_list(commands, instructions, mcp)), ..self@ }),
    {
        let mut features: Vec<String> = Vec::new();
        if commands {
            features.push(COMMANDS_FEATURE.to_owned());
        }
        if instructions {
            features.push(INSTRUCTION_FEATURE.to_owned());
        }
        if mcp {
            features.push(MCP_FEATURE.to_owned());
        }
        let r = ApplicationConfigBuilder { features: Some(features), ..self };
        assert(texts(features@) =~= feature_list(commands, instructions, mcp));
        r
    }

    /// Sets the three categories at once; a category given no names is left
    /// unset.
    pub fn add_targets(self, cli: NameSet, ide: NameSet, custom: NameSet) -> (r:
        ApplicationConfigBuilder)
        ensures
            r@ == (LocalModel {
                targets: Some(
                    TargetsModel {
                        ide: unless_empty(ide@),
                        cli: unless_empty(cli@),
                        custom: unless_empty(custom@),
                    },
                ),
                ..self@
            }),
    {
        let targets = Targets {
            ide: if ide.is_empty() {
                None
            } else {
                Some(ide)
            },
            cli: if cli.is_empty() {
                None
            } else {
                Some(cli)
            },
            custom: if custom.is_empty() {
                None
            } else {
                Some(custom)
            },
        };
        ApplicationConfigBuilder { targets: Some(targets), ..self }
    }

    /// Sets the names of one category, keeping the others.
    pub fn add_target(self, target_type: Target, names: NameSet) -> (r: ApplicationConfigBuilder)
        ensures
            r@ == (LocalModel {
                targets: Some(
                    with_category(
                        match self@.targets {
                            Some(t) => t,
                            None => TargetsModel::empty(),
                        },
                        target_type,
                        names@,
                    ),
                ),
                ..self@
            }),
    {
        let mut targets = match self.targets {
            Some(t) => t,
            None => Targets::new(),
        };
        match target_type {
            Target::Ide => targets.ide = Some(names),
            Target::Cli => targets.cli = Some(names),
            Target::Custom => targets.custom = Some(names),
        }
        ApplicationConfigBuilder { targets: Some(targets), ..self }
    }

    /// Sets the settings of a named provider of a category.
    pub fn add_provider(self, target_type: Target, name: &str, settings: ConfigAgentAbilitySettings) -> (r:
        ApplicationConfigBuilder)
        ensures
            r@ == (LocalModel {
                providers: Some(
                    with_provider(
                        match self@.providers {
                            Some(p) => p,
                            None => ProvidersModel::empty(),
                        },
                        target_type,
                        name@,
                        settings@,
                    ),
                ),
                ..self@
            }),
    {
        let p = match self.providers {
            Some(p) => p,
            None => Providers::new(),
        };
        let Providers { ide, cli, custom } = p;
        let providers = match target_type {
            Target::Ide => Providers { ide: Some(insert_into(ide, name, settings)), cli, custom },
            Target::Cli => Providers { ide, cli: Some(insert_into(cli, name, settings)), custom },
            Target::Custom => Providers { ide, cli, custom: Some(insert_into(custom, name, settings)) },
        };
        ApplicationConfigBuilder { providers: Some(providers), ..self }
    }

    /// Sets the template variables of the layer.
    pub fn add_variables(self, variables: VarMap) -> (r: ApplicationConfigBuilder)
        ensures
            r@ == (LocalModel { variables: Some(variables@), ..self@ }),
    {
        ApplicationConfigBuilder { variables: Some(variables), ..self }
    }

    /// The global layer; no features selected means an empty list.
    pub fn build(self) -> (r: GlobalConfig)
        ensures
            r@ == (GlobalModel {
                schema: self@.schema,
                features: match self@.features {
                    Some(fs) => fs,
                    None => Seq::empty(),
                },
                targets: self@.targets,
                providers: self@.providers,
                variables: self@.variables,
            }),
    {
        let features = match self.features {
            Some(fs) => fs,
            None => Vec::new(),
        };
        let r = GlobalConfig {
            schema: self.schema,
            features,
            targets: self.targets,
            providers: self.providers,
            variables: self.variables,
        };
        assert(r@.features =~= match self@.features {
            Some(fs) => fs,
            None => Seq::empty(),
        });
        r
    }

    /// The local layer, with exactly what was set.
    pub fn build_local(self) -> (r: LocalConfig)
        ensures
            r@ == self@,
    {
        LocalConfig {
            schema: self.schema,
            features: self.features,
            targets: self.targets,
            providers: self.providers,
            variables: self.variables,
        }
    }
}

impl Default for ApplicationConfigBuilder {
    fn default() -> (r: ApplicationConfigBuilder)
        ensures
            r@ == (LocalModel { schema: Some(CONFIG_SCHEMA@), ..LocalModel::empty() }),
    {
        Self::new()
    }
}

/// Builds the settings of a provider, capability by capability.
pub struct ConfigAgentAbilitySettingsBuilder {
    mcp: Option<ConfigAgentSettings>,
    instructions: Option<ConfigAgentSettings>,
    commands: Option<ConfigAgentSettings>,
}

impl View for ConfigAgentAbilitySettingsBuilder {
    type V = AbilityModel;

    closed spec fn view(&self) -> AbilityModel {
        AbilityModel {
            mcp: opt_capability(self.mcp),
            instructions: opt_capability(self.instructions),
            commands: opt_capability(self.commands),
        }
    }
}

impl ConfigAgentAbilitySettingsBuilder {
    pub fn new() -> (r: ConfigAgentAbilitySettingsBuilder)
        ensures
            r@ == AbilityModel::empty(),
    {
        ConfigAgentAbilitySettingsBuilder { mcp: None, instructions: None, commands: None }
    }

    pub fn mcp(self, settings: ConfigAgentSettings) -> (r: ConfigAgentAbilitySettingsBuilder)
        ensures
            r@ == (AbilityModel { mcp: Some(settings@), ..self@ }),
    {
        ConfigAgentAbilitySettingsBuilder { mcp: Some(settings), ..self }
    }

    pub fn instructions(self, settings: ConfigAgentSettings) -> (r: ConfigAgentAbilitySettingsBuilder)
        ensures
            r@ == (AbilityModel { instructions: Some(settings@), ..self@ }),
    {
        ConfigAgentAbilitySettingsBuilder { instructions: Some(settings), ..self }
    }

    pub fn commands(self, settings: ConfigAgentSettings) -> (r: ConfigAgentAbilitySettingsBuilder)
        ensures
            r@ == (AbilityModel { commands: Some(settings@), ..self@ }),
    {
        ConfigAgentAbilitySettingsBuilder { commands: Some(settings), ..self }
    }

    pub fn build(self) -> (r: ConfigAgentAbilitySettings)
        ensures
            r@ == self@,
    {
        ConfigAgentAbilitySettings {
            mcp: self.mcp,
            instructions: self.instructions,
            commands: self.commands,
        }
    }
}

impl Default for ConfigAgentAbilitySettingsBuilder {
    fn default() -> (r: ConfigAgentAbilitySettingsBuilder)
        ensures
            r@ == AbilityModel::empty(),
    {
        Self::new()
    }
}

/// Builds the settings of one capability of a provider, field by field.
pub struct ConfigAgentSettingsBuilder {
    template: Option<String>,
    target: Option<String>,
    disabled: Option<bool>,
    variables: Option<VarMap>,
    hash: Option<String>,
}

impl View for ConfigAgentSettingsBuilder {
    type V = CapabilityModel;

    closed spec fn view(&self) -> CapabilityModel {
        CapabilityModel {
            template: opt_text(self.template),
            target: opt_text(self.target),
            disabled: self.disabled,
            variables: opt_vars(self.variables),
            hash: opt_text(self.hash),
        }
    }
}

impl ConfigAgentSettingsBuilder {
    pub fn new() -> (r: ConfigAgentSettingsBuilder)
        ensures
            r@ == CapabilityModel::empty(),
    {
        ConfigAgentSettingsBuilder {
            template: None,
            target: None,
            disabled: None,
            variables: None,
            hash: None,
        }
    }

    pub fn template(self, template: &str) -> (r: ConfigAgentSettingsBuilder)
        ensures
            r@ == (CapabilityModel { template: Some(template@), ..self@ }),
    {
        ConfigAgentSettingsBuilder { template: Some(template.to_owned()), ..self }
    }

    pub fn target(self, target: &str) -> (r: ConfigAgentSettingsBuilder)
        ensures
            r@ == (CapabilityModel { target: Some(target@), ..self@ }),
    {
        ConfigAgentSettingsBuilder { target: Some(target.to_owned()), ..self }
    }

    pub fn disabled(self, disabled: bool) -> (r: ConfigAgentSettingsBuilder)
        ensures
            r@ == (CapabilityModel { disabled: Some(disabled), ..self@ }),
    {
        ConfigAgentSettingsBuilder { disabled: Some(disabled), ..self }
    }

    pub fn variables(self, variables: VarMap) -> (r: ConfigAgentSettingsBuilder)
        ensures
            r@ == (CapabilityModel { variables: Some(variables@), ..self@ }),
    {
        ConfigAgentSettingsBuilder { variables: Some(variables), ..self }
    }

    pub fn hash(self, hash: &str) -> (r: ConfigAgentSettingsBuilder)
        ensures
            r@ == (CapabilityModel { hash: Some(hash@), ..self@ }),
    {
        ConfigAgentSettingsBuilder { hash: Some(hash.to_owned()), ..self }
    }

    pub fn build(self) -> (r: ConfigAgentSettings)
        ensures
            r@ == self@,
    {
        ConfigAgentSettings {
            template: self.template,
            target: self.target,
            disabled: self.disabled,
            variables: self.variables,
            hash: self.hash,
        }
    }
}

impl Default for ConfigAgentSettingsBuilder {
    fn default() -> (r: ConfigAgentSettingsBuilder)
        ensures
            r@ == CapabilityModel::empty(),
    {
        Self::new()
    }
}

} // verus!
