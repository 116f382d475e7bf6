//! The `spinc` front end: the configuration a new project starts from and
//! the texts its commands show.
use vstd::prelude::*;
use crate::text::{push_str, str_eq};

verus! {

/// The configuration a new project starts from, for the `mcp` template;
/// any other template is refused.
pub fn init_config(name: &str, template: &str) -> (r: Result<String, String>)
    ensures
        template@ == "mcp"@ ==> (r matches Ok(c) && c@ == MCP_CONFIG_HEAD@ + name@ + MCP_CONFIG_TAIL@),
        template@ != "mcp"@ ==> (r matches Err(e) && e@ == "Unknown template '"@ + template@ + "'"@),
{
    if str_eq(template, "mcp") {
        let mut c = MCP_CONFIG_HEAD.to_owned();
        push_str(&mut c, name);
        push_str(&mut c, MCP_CONFIG_TAIL);
        Ok(c)
    } else {
        let mut e = "Unknown template '".to_owned();
        push_str(&mut e, template);
        push_str(&mut e, "'");
        Err(e)
    }
}

/// The `.gitignore` a new project gets when it has none.
pub const GITIGNORE: &'static str = "spin.toml\n.spin/\n";

/// The lines shown after a project is created.
pub fn next_steps_lines() -> (r: Vec<String>)
    ensures
        r.deep_view() == seq![
            ""@,
            "Next steps:"@,
            "  1. Edit spinc.yaml to configure your application"@,
            "  2. Run 'spinc synth' to generate spin.toml"@,
            "  3. Run 'spin up' to start your application"@,
        ],
{
    let mut out: Vec<String> = Vec::new();
    out.push("".to_owned());
    out.push("Next steps:".to_owned());
    out.push("  1. Edit spinc.yaml to configure your application".to_owned());
    out.push("  2. Run 'spinc synth' to generate spin.toml".to_owned());
    out.push("  3. Run 'spin up' to start your application".to_owned());
    out
}

/// The constructs `spinc construct list` shows.
pub fn construct_list_lines() -> (r: Vec<String>)
    ensures
        r.deep_view() == seq![
            "Available constructs:"@,
            ""@,
            "  mcp - MCP application (authentication, gateway, components)"@,
            "  wordpress - WordPress site"@,
            "  microservices - Microservices mesh"@,
            "  ai-pipeline - AI pipeline"@,
            ""@,
            "More constructs coming soon!"@,
        ],
{
    let mut out: Vec<String> = Vec::new();
    out.push("Available constructs:".to_owned());
    out.push("".to_owned());
    out.push("  mcp - MCP application (authentication, gateway, components)".to_owned());
    out.push("  wordpress - WordPress site".to_owned());
    out.push("  microservices - Microservices mesh".to_owned());
    out.push("  ai-pipeline - AI pipeline".to_owned());
    out.push("".to_owned());
    out.push("More constructs coming soon!".to_owned());
    out
}

/// The lines `spinc construct add` shows: constructs are bundled, none is
/// fetched.
pub fn construct_add_lines(name: &str) -> (r: Vec<String>)
    ensures
        r.deep_view() == seq![
            "Adding construct '"@ + name@ + "'"@,
            "Info: Construct registry not yet implemented"@,
            "Available constructs are bundled with spin-compose"@,
        ],
{
    let mut first = "Adding construct '".to_owned();
    push_str(&mut first, name);
    push_str(&mut first, "'");
    let mut out: Vec<String> = Vec::new();
    out.push(first);
    out.push("Info: Construct registry not yet implemented".to_owned());
    out.push("Available constructs are bundled with spin-compose".to_owned());
    out
}

/// The configuration text of a new `mcp` project, before its name.
pub const MCP_CONFIG_HEAD: &'static str = "# spin-compose configuration\nname: ";

/// The configuration text of a new `mcp` project, after its name.
pub const MCP_CONFIG_TAIL: &'static str = "\nversion: 0.1.0\ndescription: MCP application\n\n# Template\ntemplate: mcp\n\n# Authentication (set enabled: false to disable)\nauth:\n  enabled: true\n  issuer: https://auth.example.com\n  audience:\n    - api.example.com\n\n# MCP configuration\nmcp:\n  gateway: ghcr.io/fastertools/mcp-gateway:latest\n  authorizer: ghcr.io/fastertools/mcp-authorizer:latest\n  validate_arguments: false\n\n# Components\ncomponents:\n  # example-tool:\n  #   source: ./build/example.wasm\n  #   route: /example\n  #   build:\n  #     command: cargo build --target wasm32-wasip1 --release\n  #     watch:\n  #       - src/**/*.rs\n  #       - Cargo.toml\n";

} // verus!
