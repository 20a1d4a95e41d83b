use dotagents::builder::ConfigAgentSettingsBuilder;
use dotagents::names::{NameMap, NameSet};
use dotagents::settings::{
    ConfigAgentAbilitySettings, ConfigAgentSettings, Providers, Targets, VarMap,
};

fn names(list: &[&str]) -> NameSet {
    NameSet::from_names(list.iter().map(|s| s.to_string()).collect())
}

fn vars(pairs: &[(&str, &str)]) -> VarMap {
    let mut m = NameMap::new();
    for (k, v) in pairs {
        m.insert(k.to_string(), v.to_string());
    }
    m
}

fn settings(template: &str) -> ConfigAgentSettings {
    ConfigAgentSettingsBuilder::new().template(template).build()
}

fn ability_with_mcp(s: ConfigAgentSettings) -> ConfigAgentAbilitySettings {
    ConfigAgentAbilitySettings { mcp: Some(s), instructions: None, commands: None }
}

fn provider_map(entries: Vec<(&str, ConfigAgentAbilitySettings)>) -> NameMap<ConfigAgentAbilitySettings> {
    let mut m = NameMap::new();
    for (k, v) in entries {
        m.insert(k.to_string(), v);
    }
    m
}

#[test]
fn settings_merge_override_wins_else_base() {
    let base = ConfigAgentSettings {
        template: Some("base-template".to_string()),
        target: Some("base-target".to_string()),
        disabled: Some(false),
        variables: None,
        hash: Some("h1".to_string()),
    };
    let over = ConfigAgentSettings {
        template: None,
        target: Some("over-target".to_string()),
        disabled: Some(true),
        variables: None,
        hash: None,
    };
    let merged = base.merge(&over);
    assert_eq!(merged.template.as_deref(), Some("base-template"));
    assert_eq!(merged.target.as_deref(), Some("over-target"));
    assert_eq!(merged.disabled, Some(true));
    assert_eq!(merged.hash.as_deref(), Some("h1"));
    assert!(merged.variables.is_none());
}

#[test]
fn settings_merge_unites_variables_override_winning() {
    let mut base = ConfigAgentSettings::new();
    base.variables = Some(vars(&[("a", "1"), ("b", "2")]));
    let mut over = ConfigAgentSettings::new();
    over.variables = Some(vars(&[("b", "20"), ("c", "30")]));
    let merged = base.merge(&over);
    let v = merged.variables.expect("variables kept");
    assert_eq!(v.len(), 3);
    assert_eq!(v.get("a").map(|s| s.as_str()), Some("1"));
    assert_eq!(v.get("b").map(|s| s.as_str()), Some("20"));
    assert_eq!(v.get("c").map(|s| s.as_str()), Some("30"));
}

#[test]
fn settings_merge_variables_one_side_only() {
    let mut base = ConfigAgentSettings::new();
    base.variables = Some(vars(&[("a", "1")]));
    let merged = base.merge(&ConfigAgentSettings::new());
    assert_eq!(merged.variables.unwrap().get("a").map(|s| s.as_str()), Some("1"));
    let merged = ConfigAgentSettings::new().merge(&base);
    assert_eq!(merged.variables.unwrap().get("a").map(|s| s.as_str()), Some("1"));
}

#[test]
fn ability_merge_per_capability() {
    let base = ConfigAgentAbilitySettings {
        mcp: Some(settings("m1")),
        instructions: Some(settings("i1")),
        commands: None,
    };
    let over = ConfigAgentAbilitySettings {
        mcp: Some(ConfigAgentSettingsBuilder::new().target("t2").build()),
        instructions: None,
        commands: Some(settings("c2")),
    };
    let merged = base.merge(&over);
    let mcp = merged.mcp.expect("mcp present");
    assert_eq!(mcp.template.as_deref(), Some("m1"));
    assert_eq!(mcp.target.as_deref(), Some("t2"));
    assert_eq!(merged.instructions.unwrap().template.as_deref(), Some("i1"));
    assert_eq!(merged.commands.unwrap().template.as_deref(), Some("c2"));
}

#[test]
fn get_config_selects_by_feature_name() {
    let a = ConfigAgentAbilitySettings {
        mcp: Some(settings("m")),
        instructions: Some(settings("i")),
        commands: Some(settings("c")),
    };
    assert_eq!(a.get_config("mcp").unwrap().template.as_deref(), Some("m"));
    assert_eq!(a.get_config("instructions").unwrap().template.as_deref(), Some("i"));
    assert_eq!(a.get_config("commands").unwrap().template.as_deref(), Some("c"));
    assert!(a.get_config("other").is_none());
    assert!(ConfigAgentAbilitySettings::new().get_config("mcp").is_none());
}

#[test]
fn targets_merge_replaces_whole_category() {
    let base = Targets { ide: Some(names(&["vscode", "windsurf"])), cli: Some(names(&["gemini"])), custom: None };
    let over = Targets { ide: Some(names(&["zed"])), cli: None, custom: Some(names(&["opencode"])) };
    let merged = base.merge(&over);
    let ide = merged.ide.unwrap();
    assert_eq!(ide.len(), 1);
    assert!(ide.contains("zed"));
    assert!(!ide.contains("vscode"));
    assert!(merged.cli.unwrap().contains("gemini"));
    assert!(merged.custom.unwrap().contains("opencode"));
}

#[test]
fn targets_merge_empty_override_is_kept() {
    let base = Targets { ide: Some(names(&["vscode"])), cli: None, custom: None };
    let over = Targets { ide: Some(NameSet::new()), cli: None, custom: None };
    let merged = base.merge(&over);
    let ide = merged.ide.expect("explicitly empty category stays set");
    assert!(ide.is_empty());
    assert!(merged.cli.is_none());
}

#[test]
fn providers_merge_unites_names_and_merges_shared() {
    let base = Providers {
        ide: Some(provider_map(vec![("vscode", ability_with_mcp(settings("a"))), ("zed", ability_with_mcp(settings("z")))])),
        cli: None,
        custom: None,
    };
    let over = Providers {
        ide: Some(provider_map(vec![
            ("vscode", ability_with_mcp(ConfigAgentSettingsBuilder::new().target("t").build())),
            ("windsurf", ability_with_mcp(settings("w"))),
        ])),
        cli: Some(provider_map(vec![("gemini", ability_with_mcp(settings("g")))])),
        custom: None,
    };
    let merged = base.merge(&over);
    let ide = merged.ide.unwrap();
    assert_eq!(ide.len(), 3);
    let vscode = ide.get("vscode").unwrap().mcp.as_ref().unwrap();
    assert_eq!(vscode.template.as_deref(), Some("a"));
    assert_eq!(vscode.target.as_deref(), Some("t"));
    assert_eq!(ide.get("zed").unwrap().mcp.as_ref().unwrap().template.as_deref(), Some("z"));
    assert_eq!(ide.get("windsurf").unwrap().mcp.as_ref().unwrap().template.as_deref(), Some("w"));
    assert!(merged.cli.unwrap().contains_key("gemini"));
    assert!(merged.custom.is_none());
}

#[test]
fn merge_with_empty_layer_is_identity() {
    let x = Providers {
        ide: Some(provider_map(vec![("vscode", ability_with_mcp(settings("a")))])),
        cli: Some(NameMap::new()),
        custom: None,
    };
    for merged in [x.merge(&Providers::new()), Providers::new().merge(&x)] {
        let ide = merged.ide.unwrap();
        assert_eq!(ide.len(), 1);
        assert_eq!(ide.get("vscode").unwrap().mcp.as_ref().unwrap().template.as_deref(), Some("a"));
        let cli = merged.cli.expect("empty category stays present");
        assert!(cli.is_empty());
        assert!(merged.custom.is_none());
    }
    let s = ConfigAgentSettingsBuilder::new().template("t").disabled(false).hash("h").build();
    let m = s.merge(&ConfigAgentSettings::new());
    assert_eq!(m.template.as_deref(), Some("t"));
    assert_eq!(m.disabled, Some(false));
    assert_eq!(m.hash.as_deref(), Some("h"));
    assert!(m.target.is_none());
}

#[test]
fn provider_merge_associative_and_rightmost_wins() {
    let layer = |template: Option<&str>, target: Option<&str>| {
        let mut b = ConfigAgentSettingsBuilder::new();
        if let Some(t) = template {
            b = b.template(t);
        }
        if let Some(t) = target {
            b = b.target(t);
        }
        Providers { ide: Some(provider_map(vec![("vscode", ability_with_mcp(b.build()))])), cli: None, custom: None }
    };
    let a = layer(Some("a"), Some("ta"));
    let b = layer(Some("b"), None);
    let c = layer(None, Some("tc"));
    let left = a.merge(&b).merge(&c);
    let right = a.merge(&b.merge(&c));
    for p in [left, right] {
        let ide = p.ide.unwrap();
        let s = ide.get("vscode").unwrap().mcp.as_ref().unwrap();
        assert_eq!(s.template.as_deref(), Some("b"));
        assert_eq!(s.target.as_deref(), Some("tc"));
    }
}

#[test]
fn disjoint_provider_layers_commute() {
    let a = Providers { ide: Some(provider_map(vec![("vscode", ability_with_mcp(settings("a")))])), cli: None, custom: None };
    let b = Providers { ide: Some(provider_map(vec![("zed", ability_with_mcp(settings("z")))])), cli: None, custom: None };
    let ab = a.merge(&b).ide.unwrap();
    let ba = b.merge(&a).ide.unwrap();
    for m in [ab, ba] {
        assert_eq!(m.len(), 2);
        assert_eq!(m.get("vscode").unwrap().mcp.as_ref().unwrap().template.as_deref(), Some("a"));
        assert_eq!(m.get("zed").unwrap().mcp.as_ref().unwrap().template.as_deref(), Some("z"));
    }
}

#[test]
fn name_set_keeps_first_occurrence_order() {
    let s = names(&["b", "a", "b", "c"]);
    assert_eq!(s.len(), 3);
    assert_eq!(s.name_at(0), "b");
    assert_eq!(s.name_at(1), "a");
    assert_eq!(s.name_at(2), "c");
}

#[test]
fn name_map_insert_replaces_in_place() {
    let mut m = vars(&[("a", "1"), ("b", "2")]);
    m.insert("a".to_string(), "10".to_string());
    assert_eq!(m.len(), 2);
    assert_eq!(m.key_at(0), "a");
    assert_eq!(m.value_at(0), "10");
    assert_eq!(m.get("b").map(|s| s.as_str()), Some("2"));
    assert!(m.get("z").is_none());
}
