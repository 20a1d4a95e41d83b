//! The artifacts that get deployed: command snippets and MCP server
//! definitions, with builders for them.
use vstd::prelude::*;

use crate::names::{texts, NameMap};
use crate::settings::{opt_text, opt_vars, VarMap};

verus! {

/// The schema identifier of an MCP definition file.
pub const MCP_SCHEMA: &'static str = "https://dotagents.soorya-u.dev/json/schemas/mcp.schema.json";

/// The name and description of a command.
pub struct CommandMetadata {
    pub name: String,
    pub description: String,
}

/// A command snippet: its metadata and its markdown body.
pub struct Command {
    pub metadata: CommandMetadata,
    pub content: String,
}

/// Builds a command.
pub struct CommandBuilder {
    metadata: CommandMetadata,
    content: Option<String>,
}

impl CommandBuilder {
    /// The name given to the command.
    pub closed spec fn name(&self) -> Seq<char> {
        self.metadata.name@
    }

    /// The description given to the command.
    pub closed spec fn description(&self) -> Seq<char> {
        self.metadata.description@
    }

    /// The body given to the command, if any.
    pub closed spec fn content(&self) -> Option<Seq<char>> {
        match self.content {
            Some(c) => Some(c@),
            None => None,
        }
    }

    pub fn new(name: &str, description: &str) -> (r: CommandBuilder)
        ensures
            r.name() == name@,
            r.description() == description@,
            r.content().is_none(),
    {
        CommandBuilder {
            metadata: CommandMetadata { name: name.to_owned(), description: description.to_owned() },
            content: None,
        }
    }

    pub fn add_content(self, content: &str) -> (r: CommandBuilder)
        ensures
            r.name() == self.name(),
            r.description() == self.description(),
            r.content() == Some(content@),
    {
        CommandBuilder { content: Some(content.to_owned()), ..self }
    }

    /// The command; without a body its content is empty.
    pub fn build(self) -> (r: Command)
        ensures
            r.metadata.name@ == self.name(),
            r.metadata.description@ == self.description(),
            r.content@ == match self.content() {
                Some(c) => c,
                None => Seq::empty(),
            },
    {
        let content = match self.content {
            Some(c) => c,
            None => String::new(),
        };
        Command { metadata: self.metadata, content }
    }
}

/// Settings shared by both kinds of MCP server.
pub struct CommonConfig {
    pub disabled: Option<bool>,
    pub disabled_tools: Option<Vec<String>>,
}

/// The model of the shared server settings.
pub struct CommonModel {
    pub disabled: Option<bool>,
    pub disabled_tools: Option<Seq<Seq<char>>>,
}

impl View for CommonConfig {
    type V = CommonModel;

    open spec fn view(&self) -> CommonModel {
        CommonModel {
            disabled: self.disabled,
            disabled_tools: match self.disabled_tools {
                Some(t) => Some(texts(t@)),
                None => None,
            },
        }
    }
}

pub open spec fn opt_common(o: Option<CommonConfig>) -> Option<CommonModel> {
    match o {
        Some(c) => Some(c@),
        None => None,
    }
}

/// An MCP server, reached over HTTP or run as a child process.
pub enum ServerConfig {
    Http { common: Option<CommonConfig>, url: String, headers: Option<VarMap> },
    Stdio {
        common: Option<CommonConfig>,
        command: String,
        args: Vec<String>,
        cwd: Option<String>,
        env: Option<VarMap>,
        env_file: Option<String>,
    },
}

/// The model of an MCP server.
pub enum ServerModel {
    Http {
        common: Option<CommonModel>,
        url: Seq<char>,
        headers: Option<Map<Seq<char>, Seq<char>>>,
    },
    Stdio {
        common: Option<CommonModel>,
        command: Seq<char>,
        args: Seq<Seq<char>>,
        cwd: Option<Seq<char>>,
        env: Option<Map<Seq<char>, Seq<char>>>,
        env_file: Option<Seq<char>>,
    },
}

impl View for ServerConfig {
    type V = ServerModel;

    open spec fn view(&self) -> ServerModel {
        match self {
            ServerConfig::Http { common, url, headers } => ServerModel::Http {
                common: opt_common(*common),
                url: url@,
                headers: opt_vars(*headers),
            },
            ServerConfig::Stdio { common, command, args, cwd, env, env_file } => ServerModel::Stdio {
                common: opt_common(*common),
                command: command@,
                args: texts(args@),
                cwd: opt_text(*cwd),
                env: opt_vars(*env),
                env_file: opt_text(*env_file),
            },
        }
    }
}

/// An MCP definition file: a schema and named servers.
pub struct McpConfig {
    pub schema: String,
    pub servers: NameMap<ServerConfig>,
}

/// Builds an MCP definition file.
pub struct McpConfigBuilder {
    schema: String,
    servers: NameMap<ServerConfig>,
}

impl McpConfigBuilder {
    #[verifier::type_invariant]
    spec fn mcp_schema(&self) -> bool {
        self.schema@ == MCP_SCHEMA@
    }

    /// The servers added so far.
    pub closed spec fn servers(&self) -> Map<Seq<char>, ServerModel> {
        self.servers@
    }

    /// The MCP schema and no server.
    pub fn new() -> (r: McpConfigBuilder)
        ensures
            r.servers() == Map::<Seq<char>, ServerModel>::empty(),
    {
        McpConfigBuilder { schema: MCP_SCHEMA.to_owned(), servers: NameMap::new() }
    }

    /// Adds, or replaces, a server reached over HTTP.
    pub fn add_http_server(
        self,
        name: &str,
        url: &str,
        headers: Option<VarMap>,
        common: Option<CommonConfig>,
    ) -> (r: McpConfigBuilder)
        ensures
            r.servers() == self.servers().insert(
                name@,
                ServerModel::Http { common: opt_common(common), url: url@, headers: opt_vars(headers) },
            ),
    {
        proof {
            use_type_invariant(&self);
        }
        let mut servers = self.servers;
        servers.insert(name.to_owned(), ServerConfig::Http { url: url.to_owned(), headers, common });
        McpConfigBuilder { schema: self.schema, servers }
    }

    /// Adds, or replaces, a server run as a child process, with an empty
    /// environment.
    pub fn add_stdio_server(
        self,
        name: &str,
        command: &str,
        args: Vec<String>,
        cwd: Option<&str>,
        common: Option<CommonConfig>,
    ) -> (r: McpConfigBuilder)
        ensures
            r.servers() == self.servers().insert(
                name@,
                ServerModel::Stdio {
                    common: opt_common(common),
                    command: command@,
                    args: texts(args@),
                    cwd: match cwd {
                        Some(s) => Some(s@),
                        None => None,
                    },
                    env: Some(Map::empty()),
                    env_file: None,
                },
            ),
    {
        proof {
            use_type_invariant(&self);
        }
        let mut servers = self.servers;
        let cwd = match cwd {
            Some(s) => Some(s.to_owned()),
            None => None,
        };
        servers.insert(
            name.to_owned(),
            ServerConfig::Stdio {
                command: command.to_owned(),
                args,
                cwd,
                env: Some(NameMap::new()),
                env_file: None,
                common,
            },
        );
        McpConfigBuilder { schema: self.schema, servers }
    }

    /// The definition file, with the MCP schema.
    pub fn build(self) -> (r: McpConfig)
        ensures
            r.schema@ == MCP_SCHEMA@,
            r.servers@ == self.servers(),
    {
        proof {
            use_type_invariant(&self);
        }
        McpConfig { schema: self.schema, servers: self.servers }
    }
}

} // verus!
