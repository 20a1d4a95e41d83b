use dotagents::builder::{ApplicationConfigBuilder, ConfigAgentSettingsBuilder};
use dotagents::effective::{AppConfig, Layer};
use dotagents::layers::{GlobalConfig, LocalConfig, ValidationError, CONFIG_SCHEMA};
use dotagents::names::{NameMap, NameSet};
use dotagents::settings::{ConfigAgentAbilitySettings, Providers, Target, Targets, VarMap};

fn names(list: &[&str]) -> NameSet {
    NameSet::from_names(list.iter().map(|s| s.to_string()).collect())
}

fn strings(list: &[&str]) -> Vec<String> {
    list.iter().map(|s| s.to_string()).collect()
}

fn vars(pairs: &[(&str, &str)]) -> VarMap {
    let mut m = NameMap::new();
    for (k, v) in pairs {
        m.insert(k.to_string(), v.to_string());
    }
    m
}

fn opencode() -> ConfigAgentAbilitySettings {
    ConfigAgentAbilitySettings {
        mcp: Some(ConfigAgentSettingsBuilder::new().template("templates/opencode").build()),
        instructions: None,
        commands: None,
    }
}

fn empty_global() -> GlobalConfig {
    GlobalConfig { schema: None, features: Vec::new(), targets: None, providers: None, variables: None }
}

fn empty_local() -> LocalConfig {
    LocalConfig { schema: None, features: None, targets: None, providers: None, variables: None }
}

#[test]
fn features_inherited_not_unioned() {
    let global = GlobalConfig::with_features(strings(&["commands", "mcp"]), Targets::new());
    let local = empty_local();
    let app = AppConfig::from_configs(&global, &local);
    assert_eq!(app.features.len(), 2);
    assert!(app.has_feature("commands"));
    assert!(app.has_feature("mcp"));
    assert!(!app.has_feature("instructions"));
}

#[test]
fn local_features_replace_global_ones() {
    let global = GlobalConfig::with_features(strings(&["commands", "mcp"]), Targets::new());
    let local = LocalConfig::with_features(strings(&["instructions"]));
    let app = AppConfig::from_configs(&global, &local);
    assert_eq!(app.features.len(), 1);
    assert!(app.has_feature("instructions"));
    assert!(!app.has_feature("commands"));
    let local = LocalConfig::with_features(Vec::new());
    let app = AppConfig::from_configs(&global, &local);
    assert!(app.features.is_empty());
}

#[test]
fn local_custom_target_validates() {
    let global = GlobalConfig::with_features(strings(&["commands"]), Targets::new());
    let local = ApplicationConfigBuilder::new()
        .add_target(Target::Custom, names(&["opencode"]))
        .add_provider(Target::Custom, "opencode", opencode())
        .build_local();
    assert!(global.validate().is_ok());
    assert!(local.validate().is_ok());
    let app = AppConfig::from_layers(&global, &local).ok().expect("both layers valid");
    assert!(app.targets.custom.as_ref().unwrap().contains("opencode"));
    let as_global = GlobalConfig {
        schema: None,
        features: Vec::new(),
        targets: Some(Targets { ide: None, cli: None, custom: Some(names(&["opencode"])) }),
        providers: app.providers,
        variables: None,
    };
    assert!(as_global.validate().is_ok());
}

#[test]
fn undeclared_custom_provider_reported() {
    let mut providers = Providers::new();
    providers.custom = Some(NameMap::new());
    providers.custom.as_mut().unwrap().insert("bar".to_string(), opencode());
    let global = GlobalConfig {
        schema: None,
        features: strings(&["commands"]),
        targets: Some(Targets { ide: None, cli: None, custom: Some(names(&["foo"])) }),
        providers: Some(providers),
        variables: None,
    };
    match global.validate() {
        Err(ValidationError::UndeclaredCustomProvider(n)) => assert_eq!(n, "foo"),
        _ => panic!("expected an undeclared custom provider"),
    }
}

#[test]
fn custom_targets_without_provider_section() {
    let global = GlobalConfig {
        schema: None,
        features: Vec::new(),
        targets: Some(Targets { ide: None, cli: None, custom: Some(names(&["foo"])) }),
        providers: None,
        variables: None,
    };
    assert!(matches!(global.validate(), Err(ValidationError::MissingCustomProviderSection)));
    let local = LocalConfig {
        schema: None,
        features: None,
        targets: Some(Targets { ide: None, cli: None, custom: Some(names(&["foo"])) }),
        providers: Some(Providers::new()),
        variables: None,
    };
    assert!(matches!(local.validate(), Err(ValidationError::MissingCustomProviderSection)));
}

#[test]
fn empty_custom_targets_need_no_providers() {
    let global = GlobalConfig {
        schema: None,
        features: Vec::new(),
        targets: Some(Targets { ide: None, cli: None, custom: Some(NameSet::new()) }),
        providers: None,
        variables: None,
    };
    assert!(global.validate().is_ok());
}

#[test]
fn unknown_feature_fails_first() {
    let global = GlobalConfig {
        schema: None,
        features: strings(&["commands", "skills", "other"]),
        targets: Some(Targets { ide: None, cli: None, custom: Some(names(&["foo"])) }),
        providers: None,
        variables: None,
    };
    match global.validate() {
        Err(ValidationError::UnknownFeature(n)) => assert_eq!(n, "skills"),
        _ => panic!("expected an unknown feature"),
    }
    let local = LocalConfig::with_features(strings(&["mcp", "prompts"]));
    match local.validate() {
        Err(ValidationError::UnknownFeature(n)) => assert_eq!(n, "prompts"),
        _ => panic!("expected an unknown feature"),
    }
}

#[test]
fn validation_is_deterministic() {
    let global = GlobalConfig::with_features(strings(&["commands", "bogus"]), Targets::new());
    let first = global.validate();
    let second = global.validate();
    match (first, second) {
        (Err(ValidationError::UnknownFeature(a)), Err(ValidationError::UnknownFeature(b))) => assert_eq!(a, b),
        _ => panic!("expected the same failure twice"),
    }
    let ok = GlobalConfig::new();
    assert!(ok.validate().is_ok());
    assert!(ok.validate().is_ok());
}

#[test]
fn from_layers_names_the_failing_layer() {
    let bad_local = LocalConfig::with_features(strings(&["nope"]));
    let bad_global = GlobalConfig::with_features(strings(&["nada"]), Targets::new());
    match AppConfig::from_layers(&bad_global, &bad_local) {
        Err(e) => {
            assert_eq!(e.layer, Layer::Local);
            assert!(matches!(e.error, ValidationError::UnknownFeature(ref n) if n == "nope"));
        }
        Ok(_) => panic!("expected a failure"),
    }
    match AppConfig::from_layers(&bad_global, &LocalConfig::new()) {
        Err(e) => assert_eq!(e.layer, Layer::Global),
        Ok(_) => panic!("expected a failure"),
    }
}

#[test]
fn schema_falls_back_local_global_default() {
    let mut global = empty_global();
    let mut local = empty_local();
    assert_eq!(AppConfig::from_configs(&global, &local).schema, CONFIG_SCHEMA);
    global.schema = Some("g".to_string());
    assert_eq!(AppConfig::from_configs(&global, &local).schema, "g");
    local.schema = Some("l".to_string());
    assert_eq!(AppConfig::from_configs(&global, &local).schema, "l");
}

#[test]
fn layers_merge_targets_providers_variables() {
    let mut global = GlobalConfig::with_features(
        strings(&["mcp"]),
        Targets { ide: Some(names(&["vscode"])), cli: Some(names(&["gemini"])), custom: None },
    );
    global.variables = Some(vars(&[("a", "1"), ("b", "2")]));
    let mut local = LocalConfig::new();
    local.targets = Some(Targets { ide: Some(names(&["zed"])), cli: None, custom: None });
    local.variables = Some(vars(&[("b", "3")]));
    let app = AppConfig::from_configs(&global, &local);
    let ide = app.targets.ide.as_ref().unwrap();
    assert!(ide.contains("zed") && !ide.contains("vscode"));
    assert!(app.targets.cli.as_ref().unwrap().contains("gemini"));
    assert!(app.providers.is_none());
    let v = app.variables.as_ref().unwrap();
    assert_eq!(v.get("a").map(|s| s.as_str()), Some("1"));
    assert_eq!(v.get("b").map(|s| s.as_str()), Some("3"));
}

#[test]
fn empty_local_layer_keeps_global() {
    let global = ApplicationConfigBuilder::new()
        .add_features(true, false, true)
        .add_provider(Target::Ide, "vscode", opencode())
        .build();
    let app = AppConfig::from_configs(&global, &empty_local());
    assert_eq!(app.schema, CONFIG_SCHEMA);
    assert!(app.has_feature("commands") && app.has_feature("mcp") && !app.has_feature("instructions"));
    assert!(app.targets.ide.is_none() && app.targets.cli.is_none() && app.targets.custom.is_none());
    assert!(app.providers.as_ref().unwrap().ide.as_ref().unwrap().contains_key("vscode"));
    assert!(empty_local().is_empty());
    assert!(!LocalConfig::new().is_empty());
}
