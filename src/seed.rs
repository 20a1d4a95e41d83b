//! The starter content that initialising a workspace writes: a sample
//! command, a sample MCP definition and the two configuration layers.
use vstd::prelude::*;

use crate::artifacts::{Command, CommandBuilder, McpConfig, McpConfigBuilder, ServerModel};
use crate::builder::{feature_list, with_provider, ApplicationConfigBuilder};
use crate::layers::{GlobalConfig, GlobalModel, LocalConfig, LocalModel, CONFIG_SCHEMA};
use crate::names::{texts, NameMap, NameSet};
use crate::settings::{
    AbilityModel, CapabilityModel, ConfigAgentAbilitySettings, ConfigAgentSettings, ProvidersModel,
    Target, TargetsModel,
};

verus! {

/// The body of the sample command.
pub const HELLO_COMMAND: &'static str = "# Hello Command\n\nGreet the User with his name if present, else greet user as stranger.\n\nContext: $USER_INPUT";

/// The sample command.
pub fn dummy_command() -> (r: Command)
    ensures
        r.metadata.name@ == "hello"@,
        r.metadata.description@ == "A Hello Command to greet the User."@,
        r.content@ == HELLO_COMMAND@,
{
    CommandBuilder::new("hello", "A Hello Command to greet the User.").add_content(HELLO_COMMAND).build()
}

/// The sample MCP definition: one HTTP server and one local process.
pub fn dummy_mcp() -> (r: McpConfig)
    ensures
        r.servers@ == Map::<Seq<char>, ServerModel>::empty().insert(
            "server-mcp"@,
            ServerModel::Http {
                common: None,
                url: "http://localhost:9000"@,
                headers: Some(
                    Map::<Seq<char>, Seq<char>>::empty().insert("Authorization"@, "Bearer ${API_KEY}"@),
                ),
            },
        ).insert(
            "server-stdio"@,
            ServerModel::Stdio {
                common: None,
                command: "python"@,
                args: Seq::empty(),
                cwd: Some("{{ workspace_folder }}"@),
                env: Some(Map::empty()),
                env_file: None,
            },
        ),
{
    let mut headers = NameMap::new();
    headers.insert("Authorization".to_owned(), "Bearer ${API_KEY}".to_owned());
    let args: Vec<String> = Vec::new();
    let b = McpConfigBuilder::new().add_http_server("server-mcp", "http://localhost:9000", Some(headers), None);
    let b = b.add_stdio_server("server-stdio", "python", args, Some("{{ workspace_folder }}"), None);
    assert(texts(Seq::<String>::empty()) =~= Seq::<Seq<char>>::empty());
    b.build()
}

/// Settings with a template and a target path.
fn placed(template: &str, target: &str) -> (r: ConfigAgentSettings)
    ensures
        r@ == (CapabilityModel {
            template: Some(template@),
            target: Some(target@),
            ..CapabilityModel::empty()
        }),
{
    ConfigAgentSettings {
        template: Some(template.to_owned()),
        target: Some(target.to_owned()),
        disabled: None,
        variables: None,
        hash: None,
    }
}

/// The settings of the sample custom provider.
pub open spec fn opencode_settings() -> AbilityModel {
    AbilityModel {
        mcp: Some(
            CapabilityModel {
                template: Some("templates/opencode"@),
                target: Some("{{ workspace_dir }}/.opencode/mcp.json"@),
                ..CapabilityModel::empty()
            },
        ),
        instructions: Some(
            CapabilityModel {
                template: Some("templates/INSTRUCTION.md"@),
                target: Some("{{ workspace_dir }}/.opencode/instructions.md"@),
                ..CapabilityModel::empty()
            },
        ),
        commands: Some(
            CapabilityModel {
                template: Some("templates/commands-template"@),
                target: Some("{{ workspace_dir }}/.opencode/commands"@),
                ..CapabilityModel::empty()
            },
        ),
    }
}

/// The sample target names: two editors and one command-line tool.
pub open spec fn dummy_targets() -> TargetsModel {
    TargetsModel {
        ide: Some(seq!["vscode"@, "windsurf"@]),
        cli: Some(seq!["gemini"@]),
        custom: None,
    }
}

fn names_of(first: &str, second: Option<&str>) -> (r: NameSet)
    requires
        second.is_some() ==> first@ != second.unwrap()@,
    ensures
        r@ == match second {
            Some(s) => seq![first@, s@],
            None => seq![first@],
        },
{
    let mut set = NameSet::new();
    set.insert(first.to_owned());
    match second {
        Some(s) => {
            set.insert(s.to_owned());
        },
        None => {},
    }
    set
}

fn dummy_base(commands: bool, instructions: bool, mcp: bool) -> (r: ApplicationConfigBuilder)
    ensures
        r@ == (LocalModel {
            schema: Some(CONFIG_SCHEMA@),
            features: Some(feature_list(commands, instructions, mcp)),
            targets: Some(dummy_targets()),
            providers: None,
            variables: None,
        }),
{
    proof {
        reveal_strlit("vscode");
        reveal_strlit("windsurf");
        assert("vscode"@[0] != "windsurf"@[0]);
    }
    ApplicationConfigBuilder::new().add_features(commands, instructions, mcp).add_targets(
        names_of("gemini", None),
        names_of("vscode", Some("windsurf")),
        NameSet::new(),
    )
}

/// The two sample layers: the global one selects the features whose switch
/// is on and names the sample targets; the local one adds a custom target
/// with its provider.
pub fn dummy_config(commands: bool, instructions: bool, mcp: bool) -> (r: (GlobalConfig, LocalConfig))
    ensures
        r.0@ == (GlobalModel {
            schema: Some(CONFIG_SCHEMA@),
            features: feature_list(commands, instructions, mcp),
            targets: Some(dummy_targets()),
            providers: None,
            variables: None,
        }),
        r.1@ == (LocalModel {
            schema: Some(CONFIG_SCHEMA@),
            features: Some(feature_list(commands, instructions, mcp)),
            targets: Some(TargetsModel { custom: Some(seq!["opencode"@]), ..dummy_targets() }),
            providers: Some(
                with_provider(ProvidersModel::empty(), Target::Custom, "opencode"@, opencode_settings()),
            ),
            variables: None,
        }),
{
    let global = dummy_base(commands, instructions, mcp).build();
    let opencode = ConfigAgentAbilitySettings {
        mcp: Some(placed("templates/opencode", "{{ workspace_dir }}/.opencode/mcp.json")),
        instructions: Some(
            placed("templates/INSTRUCTION.md", "{{ workspace_dir }}/.opencode/instructions.md"),
        ),
        commands: Some(placed("templates/commands-template", "{{ workspace_dir }}/.opencode/commands")),
    };
    let local = dummy_base(commands, instructions, mcp).add_target(
        Target::Custom,
        names_of("opencode", None),
    ).add_provider(Target::Custom, "opencode", opencode).build_local();
    (global, local)
}

} // verus!
