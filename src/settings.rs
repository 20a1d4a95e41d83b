//! The settings model shared by every configuration document, and the rules
//! that merge a base layer with an override layer.
use vstd::prelude::*;

use crate::names::{Duplicable, NameMap, NameSet};

verus! {

/// Template variables: names mapped to values.
pub type VarMap = NameMap<String>;

/// Providers of one category: provider names mapped to their settings.
pub type ProviderMap = NameMap<ConfigAgentAbilitySettings>;

/// The feature that deploys MCP server definitions.
pub const MCP_FEATURE: &'static str = "mcp";

/// The feature that deploys instruction text.
pub const INSTRUCTION_FEATURE: &'static str = "instructions";

/// The feature that deploys command snippets.
pub const COMMANDS_FEATURE: &'static str = "commands";

/// Whether two strings hold the same characters.
pub fn text_is(s: &str, t: &str) -> (r: bool)
    ensures
        r == (s@ == t@),
{
    let a = s.to_owned();
    let b = t.to_owned();
    a == b
}

/// The value that survives when `over` is laid on `base`.
pub open spec fn prefer<T>(base: Option<T>, over: Option<T>) -> Option<T> {
    if over.is_some() {
        over
    } else {
        base
    }
}

pub open spec fn opt_text(o: Option<String>) -> Option<Seq<char>> {
    match o {
        Some(s) => Some(s@),
        None => None,
    }
}

pub open spec fn opt_vars(o: Option<VarMap>) -> Option<Map<Seq<char>, Seq<char>>> {
    match o {
        Some(m) => Some(m@),
        None => None,
    }
}

pub open spec fn opt_names(o: Option<NameSet>) -> Option<Seq<Seq<char>>> {
    match o {
        Some(s) => Some(s@),
        None => None,
    }
}

/// Two optional variable maps merged: union, the override's value winning
/// on a shared name.
pub open spec fn merge_vars(
    base: Option<Map<Seq<char>, Seq<char>>>,
    over: Option<Map<Seq<char>, Seq<char>>>,
) -> Option<Map<Seq<char>, Seq<char>>> {
    match (base, over) {
        (Some(b), Some(o)) => Some(b.union_prefer_right(o)),
        _ => prefer(base, over),
    }
}

/// The model of the settings of one capability of one provider.
pub struct CapabilityModel {
    pub template: Option<Seq<char>>,
    pub target: Option<Seq<char>>,
    pub disabled: Option<bool>,
    pub variables: Option<Map<Seq<char>, Seq<char>>>,
    pub hash: Option<Seq<char>>,
}

impl CapabilityModel {
    pub open spec fn empty() -> CapabilityModel {
        CapabilityModel {
            template: None,
            target: None,
            disabled: None,
            variables: None,
            hash: None,
        }
    }

    /// Field by field: a present override wins; variables are united.
    pub open spec fn merge(self, over: CapabilityModel) -> CapabilityModel {
        CapabilityModel {
            template: prefer(self.template, over.template),
            target: prefer(self.target, over.target),
            disabled: prefer(self.disabled, over.disabled),
            variables: merge_vars(self.variables, over.variables),
            hash: prefer(self.hash, over.hash),
        }
    }
}

/// Two optional capability settings merged: both present are merged,
/// otherwise the present one is kept.
pub open spec fn merge_capability(base: Option<CapabilityModel>, over: Option<CapabilityModel>) -> Option<
    CapabilityModel,
> {
    match (base, over) {
        (Some(b), Some(o)) => Some(b.merge(o)),
        _ => prefer(base, over),
    }
}

/// The model of the settings of a provider, one entry per capability.
pub struct AbilityModel {
    pub mcp: Option<CapabilityModel>,
    pub instructions: Option<CapabilityModel>,
    pub commands: Option<CapabilityModel>,
}

impl AbilityModel {
    pub open spec fn empty() -> AbilityModel {
        AbilityModel { mcp: None, instructions: None, commands: None }
    }

    pub open spec fn merge(self, over: AbilityModel) -> AbilityModel {
        AbilityModel {
            mcp: merge_capability(self.mcp, over.mcp),
            instructions: merge_capability(self.instructions, over.instructions),
            commands: merge_capability(self.commands, over.commands),
        }
    }

    /// The settings of the capability that a feature name selects.
    pub open spec fn capability(self, feature: Seq<char>) -> Option<CapabilityModel> {
        if feature == MCP_FEATURE@ {
            self.mcp
        } else if feature == INSTRUCTION_FEATURE@ {
            self.instructions
        } else if feature == COMMANDS_FEATURE@ {
            self.commands
        } else {
            None
        }
    }
}

/// Two provider maps merged key by key; settings under a shared name are
/// merged.
pub open spec fn merge_ability_maps(
    base: Map<Seq<char>, AbilityModel>,
    over: Map<Seq<char>, AbilityModel>,
) -> Map<Seq<char>, AbilityModel> {
    Map::new(
        |k: Seq<char>| base.contains_key(k) || over.contains_key(k),
        |k: Seq<char>|
            if base.contains_key(k) && over.contains_key(k) {
                base[k].merge(over[k])
            } else if over.contains_key(k) {
                over[k]
            } else {
                base[k]
            },
    )
}

/// Two optional provider maps merged; absent on both sides stays absent.
pub open spec fn merge_provider_maps_model(
    base: Option<Map<Seq<char>, AbilityModel>>,
    over: Option<Map<Seq<char>, AbilityModel>>,
) -> Option<Map<Seq<char>, AbilityModel>> {
    match (base, over) {
        (Some(b), Some(o)) => Some(merge_ability_maps(b, o)),
        _ => prefer(base, over),
    }
}

pub open spec fn opt_providers(o: Option<ProviderMap>) -> Option<Map<Seq<char>, AbilityModel>> {
    match o {
        Some(m) => Some(m@),
        None => None,
    }
}

/// A category of deployment targets.
#[derive(Clone, Copy, Debug, PartialEq, Eq, Structural)]
pub enum Target {
    Ide,
    Cli,
    Custom,
}

/// The category that a name denotes.
pub open spec fn target_named(name: Seq<char>) -> Option<Target> {
    if name == "ide"@ {
        Some(Target::Ide)
    } else if name == "cli"@ {
        Some(Target::Cli)
    } else if name == "custom"@ {
        Some(Target::Custom)
    } else {
        None
    }
}

impl Target {
    /// Reads a category from its name: `ide`, `cli` or `custom`.
    pub fn from_name(name: &str) -> (r: Option<Target>)
        ensures
            r == target_named(name@),
    {
        if text_is(name, "ide") {
            Some(Target::Ide)
        } else if text_is(name, "cli") {
            Some(Target::Cli)
        } else if text_is(name, "custom") {
            Some(Target::Custom)
        } else {
            None
        }
    }
}

/// Settings of one capability of one provider.
pub struct ConfigAgentSettings {
    pub template: Option<String>,
    pub target: Option<String>,
    pub disabled: Option<bool>,
    pub variables: Option<VarMap>,
    pub hash: Option<String>,
}

impl View for ConfigAgentSettings {
    type V = CapabilityModel;

    open spec fn view(&self) -> CapabilityModel {
        CapabilityModel {
            template: opt_text(self.template),
            target: opt_text(self.target),
            disabled: self.disabled,
            variables: opt_vars(self.variables),
            hash: opt_text(self.hash),
        }
    }
}

fn dup_text(o: &Option<String>) -> (r: Option<String>)
    ensures
        opt_text(r) == opt_text(*o),
{
    match o {
        Some(s) => Some(s.clone()),
        None => None,
    }
}

fn prefer_text(base: &Option<String>, over: &Option<String>) -> (r: Option<String>)
    ensures
        opt_text(r) == prefer(opt_text(*base), opt_text(*over)),
{
    if over.is_some() {
        dup_text(over)
    } else {
        dup_text(base)
    }
}

fn dup_vars(o: &Option<VarMap>) -> (r: Option<VarMap>)
    ensures
        opt_vars(r) == opt_vars(*o),
{
    match o {
        Some(m) => Some(m.duplicate()),
        None => None,
    }
}

impl Duplicable for ConfigAgentSettings {
    fn duplicate(&self) -> (r: ConfigAgentSettings) {
        ConfigAgentSettings {
            template: dup_text(&self.template),
            target: dup_text(&self.target),
            disabled: self.disabled,
            variables: dup_vars(&self.variables),
            hash: dup_text(&self.hash),
        }
    }
}

impl ConfigAgentSettings {
    /// Settings with every field absent.
    pub fn new() -> (r: ConfigAgentSettings)
        ensures
            r@ == CapabilityModel::empty(),
    {
        ConfigAgentSettings { template: None, target: None, disabled: None, variables: None, hash: None }
    }

    /// Lays `other` over `self`: a present field of `other` wins, variables
    /// are united with `other`'s value winning on a shared name.
    pub fn merge(&self, other: &ConfigAgentSettings) -> (r: ConfigAgentSettings)
        ensures
            r@ == self@.merge(other@),
    {
        ConfigAgentSettings {
            template: prefer_text(&self.template, &other.template),
            target: prefer_text(&self.target, &other.target),
            disabled: if other.disabled.is_some() {
                other.disabled
            } else {
                self.disabled
            },
            variables: Self::merge_variables(self.variables.as_ref(), other.variables.as_ref()),
            hash: prefer_text(&self.hash, &other.hash),
        }
    }

    fn merge_variables(base: Option<&VarMap>, override_vars: Option<&VarMap>) -> (r: Option<VarMap>)
        ensures
            opt_vars(r) == merge_vars(
                match base {
                    Some(b) => Some(b@),
                    None => None,
                },
                match override_vars {
                    Some(o) => Some(o@),
                    None => None,
                },
            ),
    {
        match (base, override_vars) {
            (None, None) => None,
            (Some(b), None) => Some(b.duplicate()),
            (None, Some(o)) => Some(o.duplicate()),
            (Some(b), Some(o)) => {
                let mut merged = b.duplicate();
                merged.extend_from(o);
                Some(merged)
            },
        }
    }
}

pub open spec fn opt_capability(o: Option<ConfigAgentSettings>) -> Option<CapabilityModel> {
    match o {
        Some(c) => Some(c@),
        None => None,
    }
}

/// Settings of a provider, one entry per capability.
pub struct ConfigAgentAbilitySettings {
    pub mcp: Option<ConfigAgentSettings>,
    pub instructions: Option<ConfigAgentSettings>,
    pub commands: Option<ConfigAgentSettings>,
}

impl View for ConfigAgentAbilitySettings {
    type V = AbilityModel;

    open spec fn view(&self) -> AbilityModel {
        AbilityModel {
            mcp: opt_capability(self.mcp),
            instructions: opt_capability(self.instructions),
            commands: opt_capability(self.commands),
        }
    }
}

fn dup_capability(o: &Option<ConfigAgentSettings>) -> (r: Option<ConfigAgentSettings>)
    ensures
        opt_capability(r) == opt_capability(*o),
{
    match o {
        Some(c) => Some(c.duplicate()),
        None => None,
    }
}

impl Duplicable for ConfigAgentAbilitySettings {
    fn duplicate(&self) -> (r: ConfigAgentAbilitySettings) {
        ConfigAgentAbilitySettings {
            mcp: dup_capability(&self.mcp),
            instructions: dup_capability(&self.instructions),
            commands: dup_capability(&self.commands),
        }
    }
}

impl ConfigAgentAbilitySettings {
    /// Settings with no capability configured.
    pub fn new() -> (r: ConfigAgentAbilitySettings)
        ensures
            r@ == AbilityModel::empty(),
    {
        ConfigAgentAbilitySettings { mcp: None, instructions: None, commands: None }
    }

    /// Lays `other` over `self`, capability by capability.
    pub fn merge(&self, other: &ConfigAgentAbilitySettings) -> (r: ConfigAgentAbilitySettings)
        ensures
            r@ == self@.merge(other@),
    {
        ConfigAgentAbilitySettings {
            mcp: Self::merge_settings(self.mcp.as_ref(), other.mcp.as_ref()),
            instructions: Self::merge_settings(
                self.instructions.as_ref(),
                other.instructions.as_ref(),
            ),
            commands: Self::merge_settings(self.commands.as_ref(), other.commands.as_ref()),
        }
    }

    /// The settings of the capability that `feature` names, if configured;
    /// `None` for a name that is no feature.
    pub fn get_config(&self, feature: &str) -> (r: Option<ConfigAgentSettings>)
        ensures
            opt_capability(r) == self@.capability(feature@),
    {
        if text_is(feature, MCP_FEATURE) {
            dup_capability(&self.mcp)
        } else if text_is(feature, INSTRUCTION_FEATURE) {
            dup_capability(&self.instructions)
        } else if text_is(feature, COMMANDS_FEATURE) {
            dup_capability(&self.commands)
        } else {
            None
        }
    }

    fn merge_settings(
        base: Option<&ConfigAgentSettings>,
        override_settings: Option<&ConfigAgentSettings>,
    ) -> (r: Option<ConfigAgentSettings>)
        ensures
            opt_capability(r) == merge_capability(
                match base {
                    Some(b) => Some(b@),
                    None => None,
                },
                match override_settings {
                    Some(o) => Some(o@),
                    None => None,
                },
            ),
    {
        match (base, override_settings) {
            (None, None) => None,
            (Some(b), None) => Some(b.duplicate()),
            (None, Some(o)) => Some(o.duplicate()),
            (Some(b), Some(o)) => Some(b.merge(o)),
        }
    }
}

/// The model of the target names of each category.
pub struct TargetsModel {
    pub ide: Option<Seq<Seq<char>>>,
    pub cli: Option<Seq<Seq<char>>>,
    pub custom: Option<Seq<Seq<char>>>,
}

impl TargetsModel {
    pub open spec fn empty() -> TargetsModel {
        TargetsModel { ide: None, cli: None, custom: None }
    }

    /// Category by category, a present override replaces the whole set.
    pub open spec fn merge(self, over: TargetsModel) -> TargetsModel {
        TargetsModel {
            ide: prefer(self.ide, over.ide),
            cli: prefer(self.cli, over.cli),
            custom: prefer(self.custom, over.custom),
        }
    }
}

/// Target names per category; an absent category is unset at this layer,
/// which differs from one set to no names.
pub struct Targets {
    pub ide: Option<NameSet>,
    pub cli: Option<NameSet>,
    pub custom: Option<NameSet>,
}

impl View for Targets {
    type V = TargetsModel;

    open spec fn view(&self) -> TargetsModel {
        TargetsModel {
            ide: opt_names(self.ide),
            cli: opt_names(self.cli),
            custom: opt_names(self.custom),
        }
    }
}

fn dup_names(o: &Option<NameSet>) -> (r: Option<NameSet>)
    ensures
        opt_names(r) == opt_names(*o),
{
    match o {
        Some(s) => Some(s.duplicate()),
        None => None,
    }
}

fn prefer_names(base: &Option<NameSet>, over: &Option<NameSet>) -> (r: Option<NameSet>)
    ensures
        opt_names(r) == prefer(opt_names(*base), opt_names(*over)),
{
    if over.is_some() {
        dup_names(over)
    } else {
        dup_names(base)
    }
}

impl Duplicable for Targets {
    fn duplicate(&self) -> (r: Targets) {
        Targets {
            ide: dup_names(&self.ide),
            cli: dup_names(&self.cli),
            custom: dup_names(&self.custom),
        }
    }
}

impl Targets {
    /// No category set.
    pub fn new() -> (r: Targets)
        ensures
            r@ == TargetsModel::empty(),
    {
        Targets { ide: None, cli: None, custom: None }
    }

    /// Lays `other` over `self`: each category that `other` sets replaces
    /// that of `self` whole.
    pub fn merge(&self, other: &Targets) -> (r: Targets)
        ensures
            r@ == self@.merge(other@),
    {
        Targets {
            ide: prefer_names(&self.ide, &other.ide),
            cli: prefer_names(&self.cli, &other.cli),
            custom: prefer_names(&self.custom, &other.custom),
        }
    }

    /// The names of one category.
    pub fn category(&self, kind: Target) -> (r: &Option<NameSet>)
        ensures
            opt_names(*r) == self@.category(kind),
    {
        match kind {
            Target::Ide => &self.ide,
            Target::Cli => &self.cli,
            Target::Custom => &self.custom,
        }
    }
}

impl TargetsModel {
    pub open spec fn category(self, kind: Target) -> Option<Seq<Seq<char>>> {
        match kind {
            Target::Ide => self.ide,
            Target::Cli => self.cli,
            Target::Custom => self.custom,
        }
    }
}

/// The model of the providers of each category.
pub struct ProvidersModel {
    pub ide: Option<Map<Seq<char>, AbilityModel>>,
    pub cli: Option<Map<Seq<char>, AbilityModel>>,
    pub custom: Option<Map<Seq<char>, AbilityModel>>,
}

impl ProvidersModel {
    pub open spec fn empty() -> ProvidersModel {
        ProvidersModel { ide: None, cli: None, custom: None }
    }

    /// Category by category, the provider maps are merged.
    pub open spec fn merge(self, over: ProvidersModel) -> ProvidersModel {
        ProvidersModel {
            ide: merge_provider_maps_model(self.ide, over.ide),
            cli: merge_provider_maps_model(self.cli, over.cli),
            custom: merge_provider_maps_model(self.custom, over.custom),
        }
    }

    pub open spec fn category(self, kind: Target) -> Option<Map<Seq<char>, AbilityModel>> {
        match kind {
            Target::Ide => self.ide,
            Target::Cli => self.cli,
            Target::Custom => self.custom,
        }
    }

    /// The settings of one capability of one named provider of a category.
    pub open spec fn entry(self, kind: Target, name: Seq<char>, feature: Seq<char>) -> Option<
        CapabilityModel,
    > {
        match self.category(kind) {
            Some(m) => if m.contains_key(name) {
                m[name].capability(feature)
            } else {
                None
            },
            None => None,
        }
    }
}

/// Providers per category: for each, names mapped to their settings.
pub struct Providers {
    pub ide: Option<ProviderMap>,
    pub cli: Option<ProviderMap>,
    pub custom: Option<ProviderMap>,
}

impl View for Providers {
    type V = ProvidersModel;

    open spec fn view(&self) -> ProvidersModel {
        ProvidersModel {
            ide: opt_providers(self.ide),
            cli: opt_providers(self.cli),
            custom: opt_providers(self.custom),
        }
    }
}

fn dup_providers(o: &Option<ProviderMap>) -> (r: Option<ProviderMap>)
    ensures
        opt_providers(r) == opt_providers(*o),
{
    match o {
        Some(m) => Some(m.duplicate()),
        None => None,
    }
}

impl Duplicable for Providers {
    fn duplicate(&self) -> (r: Providers) {
        Providers {
            ide: dup_providers(&self.ide),
            cli: dup_providers(&self.cli),
            custom: dup_providers(&self.custom),
        }
    }
}

impl Providers {
    /// No category configured.
    pub fn new() -> (r: Providers)
        ensures
            r@ == ProvidersModel::empty(),
    {
        Providers { ide: None, cli: None, custom: None }
    }

    /// Lays `other` over `self`: in each category the names are united and
    /// the settings under a shared name are merged.
    pub fn merge(&self, other: &Providers) -> (r: Providers)
        ensures
            r@ == self@.merge(other@),
    {
        Providers {
            ide: Self::merge_provider_maps(self.ide.as_ref(), other.ide.as_ref()),
            cli: Self::merge_provider_maps(self.cli.as_ref(), other.cli.as_ref()),
            custom: Self::merge_provider_maps(self.custom.as_ref(), other.custom.as_ref()),
        }
    }

    /// The providers of one category.
    pub fn category(&self, kind: Target) -> (r: &Option<ProviderMap>)
        ensures
            opt_providers(*r) == self@.category(kind),
    {
        match kind {
            Target::Ide => &self.ide,
            Target::Cli => &self.cli,
            Target::Custom => &self.custom,
        }
    }

    fn merge_provider_maps(base: Option<&ProviderMap>, override_map: Option<&ProviderMap>) -> (r:
        Option<ProviderMap>)
        ensures
            opt_providers(r) == merge_provider_maps_model(
                match base {
                    Some(b) => Some(b@),
                    None => None,
                },
                match override_map {
                    Some(o) => Some(o@),
                    None => None,
                },
            ),
    {
        match (base, override_map) {
            (None, None) => None,
            (Some(b), None) => Some(b.duplicate()),
            (None, Some(o)) => Some(o.duplicate()),
            (Some(b), Some(o)) => {
                let mut merged = b.duplicate();
                let n = o.len();
                let mut i: usize = 0;
                while i < n
                    invariant
                        i <= n,
                        n == o.keys().len(),
                        o.keys().no_duplicates(),
                        o@.dom() == o.keys().to_set(),
                        merged@ == merge_ability_maps(
                            b@,
                            o@.restrict(o.keys().subrange(0, i as int).to_set()),
                        ),
                    decreases n - i,
                {
                    let key = o.key_at(i);
                    let value = o.value_at(i);
                    let ghost done = o.keys().subrange(0, i as int).to_set();
                    let ghost next = o.keys().subrange(0, i + 1).to_set();
                    proof {
                        assert(o.keys().subrange(0, i + 1) =~= o.keys().subrange(
                            0,
                            i as int,
                        ).push(key@));
                        o.keys().subrange(0, i as int).lemma_push_to_set_commute(key@);
                        assert(!done.contains(key@)) by {
                            if done.contains(key@) {
                                let j = choose|j: int|
                                    0 <= j < i && o.keys().subrange(0, i as int)[j] == key@;
                                assert(o.keys()[j] == o.keys()[i as int]);
                            }
                        }
                    }
                    let combined = match merged.get(key.as_str()) {
                        Some(existing) => existing.merge(value),
                        None => value.duplicate(),
                    };
                    merged.insert(key.clone(), combined);
                    proof {
                        assert(merged@ =~= merge_ability_maps(b@, o@.restrict(next)));
                    }
                    i = i + 1;
                }
                proof {
                    assert(o.keys().subrange(0, n as int) =~= o.keys());
                    assert(o@.restrict(o.keys().to_set()) =~= o@);
                }
                Some(merged)
            },
        }
    }
}

} // verus!
