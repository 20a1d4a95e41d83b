use dotagents::builder::{ApplicationConfigBuilder, ConfigAgentAbilitySettingsBuilder, ConfigAgentSettingsBuilder};
use dotagents::layers::CONFIG_SCHEMA;
use dotagents::names::{NameMap, NameSet};
use dotagents::settings::{ConfigAgentAbilitySettings, Target};

fn names(list: &[&str]) -> NameSet {
    NameSet::from_names(list.iter().map(|s| s.to_string()).collect())
}

#[test]
fn builder_features_in_fixed_order() {
    let g = ApplicationConfigBuilder::new().add_features(true, true, true).build();
    assert_eq!(g.features, vec!["commands".to_string(), "instructions".to_string(), "mcp".to_string()]);
    let g = ApplicationConfigBuilder::new().add_features(false, true, false).build();
    assert_eq!(g.features, vec!["instructions".to_string()]);
    let g = ApplicationConfigBuilder::new().build();
    assert!(g.features.is_empty());
    assert_eq!(g.schema.as_deref(), Some(CONFIG_SCHEMA));
    let l = ApplicationConfigBuilder::default().build_local();
    assert!(l.features.is_none());
}

#[test]
fn builder_targets_drop_empty_categories() {
    let g = ApplicationConfigBuilder::new()
        .add_targets(names(&["gemini"]), names(&["vscode", "windsurf"]), NameSet::new())
        .build();
    let t = g.targets.unwrap();
    assert_eq!(t.ide.as_ref().unwrap().len(), 2);
    assert!(t.cli.as_ref().unwrap().contains("gemini"));
    assert!(t.custom.is_none());
}

#[test]
fn builder_add_target_keeps_other_categories() {
    let l = ApplicationConfigBuilder::new()
        .add_targets(names(&["gemini"]), names(&["vscode"]), NameSet::new())
        .add_target(Target::Custom, names(&["opencode"]))
        .add_target(Target::Cli, NameSet::new())
        .build_local();
    let t = l.targets.unwrap();
    assert!(t.ide.unwrap().contains("vscode"));
    assert!(t.cli.unwrap().is_empty());
    assert!(t.custom.unwrap().contains("opencode"));
}

#[test]
fn builder_add_provider_creates_and_replaces() {
    let first = ConfigAgentAbilitySettingsBuilder::new()
        .mcp(ConfigAgentSettingsBuilder::new().template("a").build())
        .build();
    let second = ConfigAgentAbilitySettingsBuilder::new()
        .commands(ConfigAgentSettingsBuilder::new().template("b").build())
        .build();
    let l = ApplicationConfigBuilder::new()
        .add_provider(Target::Custom, "opencode", first)
        .add_provider(Target::Ide, "vscode", ConfigAgentAbilitySettings::new())
        .add_provider(Target::Custom, "opencode", second)
        .build_local();
    let p = l.providers.unwrap();
    let custom = p.custom.unwrap();
    assert_eq!(custom.len(), 1);
    let oc = custom.get("opencode").unwrap();
    assert!(oc.mcp.is_none());
    assert_eq!(oc.commands.as_ref().unwrap().template.as_deref(), Some("b"));
    assert!(p.ide.unwrap().contains_key("vscode"));
    assert!(p.cli.is_none());
}

#[test]
fn builder_variables_and_settings_fields() {
    let mut vars = NameMap::new();
    vars.insert("k".to_string(), "v".to_string());
    let s = ConfigAgentSettingsBuilder::default()
        .template("tpl")
        .target("dst")
        .disabled(true)
        .variables(vars)
        .hash("abc")
        .build();
    assert_eq!(s.template.as_deref(), Some("tpl"));
    assert_eq!(s.target.as_deref(), Some("dst"));
    assert_eq!(s.disabled, Some(true));
    assert_eq!(s.variables.as_ref().unwrap().get("k").map(|x| x.as_str()), Some("v"));
    assert_eq!(s.hash.as_deref(), Some("abc"));
    let a = ConfigAgentAbilitySettingsBuilder::default()
        .instructions(ConfigAgentSettingsBuilder::new().build())
        .build();
    assert!(a.instructions.is_some() && a.mcp.is_none() && a.commands.is_none());
    let mut globals = NameMap::new();
    globals.insert("x".to_string(), "1".to_string());
    let g = ApplicationConfigBuilder::new().add_variables(globals).build();
    assert_eq!(g.variables.unwrap().get("x").map(|x| x.as_str()), Some("1"));
}
