use dotagents::artifacts::{CommonConfig, McpConfigBuilder, ServerConfig, MCP_SCHEMA};
use dotagents::builder::ApplicationConfigBuilder;
use dotagents::effective::AppConfig;
use dotagents::names::NameMap;
use dotagents::seed::{dummy_command, dummy_config, dummy_mcp, HELLO_COMMAND};
use dotagents::templates::{default_variables, TemplateFailure, Templater};

fn templater() -> Templater {
    Templater::new(default_variables("cfg".to_string(), "ws".to_string(), "app".to_string()))
}

#[test]
fn render_uses_default_variables() {
    let mut t = templater();
    assert!(t.register_template("paths", "{{config_dir}} {{workspace_dir}} {{application_dir}}").is_ok());
    assert_eq!(t.render_template("paths", None).ok().unwrap(), "cfg ws app");
}

#[test]
fn caller_variables_override_defaults() {
    let mut t = templater();
    assert!(t.register_template("greet", "{{workspace_dir}}-{{name}}").is_ok());
    let mut extra = NameMap::new();
    extra.insert("name".to_string(), "ada".to_string());
    extra.insert("workspace_dir".to_string(), "elsewhere".to_string());
    assert_eq!(t.render_template("greet", Some(&extra)).ok().unwrap(), "elsewhere-ada");
    let bag = t.template_data(Some(&extra));
    assert_eq!(bag.len(), 4);
    assert_eq!(bag.get("config_dir").map(|s| s.as_str()), Some("cfg"));
    assert_eq!(bag.get("workspace_dir").map(|s| s.as_str()), Some("elsewhere"));
}

#[test]
fn template_errors_are_reported() {
    let mut t = templater();
    match t.register_template("broken", "{{#if}") {
        Err(TemplateFailure::Syntax { template, .. }) => assert_eq!(template, "broken"),
        _ => panic!("expected a syntax failure"),
    }
    match t.render_template("missing", None) {
        Err(TemplateFailure::Render { template, .. }) => assert_eq!(template, "missing"),
        _ => panic!("expected a render failure"),
    }
}

#[test]
fn seeded_layers_are_valid_and_merge() {
    let (global, local) = dummy_config(true, false, true);
    assert_eq!(global.features, vec!["commands".to_string(), "mcp".to_string()]);
    assert!(global.validate().is_ok());
    assert!(local.validate().is_ok());
    let t = global.targets.as_ref().unwrap();
    assert_eq!(t.ide.as_ref().unwrap().len(), 2);
    assert!(t.cli.as_ref().unwrap().contains("gemini"));
    assert!(t.custom.is_none());
    let app = AppConfig::from_layers(&global, &local).ok().unwrap();
    assert!(app.targets.custom.as_ref().unwrap().contains("opencode"));
    let chosen = app.get_feature_providers("mcp");
    assert_eq!(chosen.get("opencode").unwrap().template.as_deref(), Some("templates/opencode"));
    assert!(app.get_feature_providers("instructions").is_empty());
}

#[test]
fn seeded_command_and_mcp() {
    let c = dummy_command();
    assert_eq!(c.metadata.name, "hello");
    assert_eq!(c.content, HELLO_COMMAND);
    let m = dummy_mcp();
    assert_eq!(m.schema, MCP_SCHEMA);
    assert_eq!(m.servers.len(), 2);
    match m.servers.get("server-mcp").unwrap() {
        ServerConfig::Http { url, headers, .. } => {
            assert_eq!(url, "http://localhost:9000");
            assert_eq!(headers.as_ref().unwrap().get("Authorization").map(|s| s.as_str()), Some("Bearer ${API_KEY}"));
        }
        _ => panic!("expected an HTTP server"),
    }
    match m.servers.get("server-stdio").unwrap() {
        ServerConfig::Stdio { command, args, cwd, env, .. } => {
            assert_eq!(command, "python");
            assert!(args.is_empty());
            assert_eq!(cwd.as_deref(), Some("{{ workspace_folder }}"));
            assert!(env.as_ref().unwrap().is_empty());
        }
        _ => panic!("expected a stdio server"),
    }
}

#[test]
fn mcp_builder_replaces_same_name() {
    let m = McpConfigBuilder::new()
        .add_http_server("s", "http://a", None, None)
        .add_http_server("s", "http://b", None, None)
        .build();
    assert_eq!(m.servers.len(), 1);
    match m.servers.get("s").unwrap() {
        ServerConfig::Http { url, .. } => assert_eq!(url, "http://b"),
        _ => panic!("expected an HTTP server"),
    }
    let empty = ApplicationConfigBuilder::new().build_local();
    assert!(empty.providers.is_none());
}

#[test]
fn mcp_builder_keeps_every_server_field() {
    let mut headers = NameMap::new();
    headers.insert("X".to_string(), "1".to_string());
    let common = CommonConfig { disabled: Some(true), disabled_tools: Some(vec!["t".to_string()]) };
    let m = McpConfigBuilder::new()
        .add_http_server("h", "http://x", Some(headers), None)
        .add_stdio_server("s", "run", vec!["a".to_string(), "b".to_string()], Some("dir"), Some(common))
        .build();
    match m.servers.get("h").unwrap() {
        ServerConfig::Http { url, headers, common } => {
            assert_eq!(url, "http://x");
            assert_eq!(headers.as_ref().unwrap().get("X").map(|s| s.as_str()), Some("1"));
            assert!(common.is_none());
        }
        _ => panic!("expected an HTTP server"),
    }
    match m.servers.get("s").unwrap() {
        ServerConfig::Stdio { command, args, cwd, env, env_file, common } => {
            assert_eq!(command, "run");
            assert_eq!(args, &vec!["a".to_string(), "b".to_string()]);
            assert_eq!(cwd.as_deref(), Some("dir"));
            assert!(env.as_ref().unwrap().is_empty());
            assert!(env_file.is_none());
            let c = common.as_ref().unwrap();
            assert_eq!(c.disabled, Some(true));
            assert_eq!(c.disabled_tools.as_ref().unwrap(), &vec!["t".to_string()]);
        }
        _ => panic!("expected a stdio server"),
    }
}

#[test]
fn partial_tags_are_refused() {
    let mut t = templater();
    for text in ["{{> other}}", "a {{~> other}}", "{{ > other }}", "{{#> layout}}x{{/layout}}", "{{~ # > layout}}{{/layout}}"] {
        match t.register_template("p", text) {
            Err(TemplateFailure::Partial { template }) => assert_eq!(template, "p"),
            _ => panic!("expected a partial to be refused: {}", text),
        }
    }
    assert!(matches!(t.render_template("p", None), Err(TemplateFailure::Render { .. })));
    assert!(t.register_template("plain", "a > b {{workspace_dir}} >").is_ok());
    assert_eq!(t.render_template("plain", None).ok().unwrap(), "a > b ws >");
}
