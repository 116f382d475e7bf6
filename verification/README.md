# ftl

Verified core of the FTL tooling for MCP servers on Spin, written in Verus.

- `src/` is the library. Every function in it is checked by Verus against its
  `requires`/`ensures` contract:
  - `ftl_config`, `transpiler`, `manifest_text`, `transpiler_laws`: the
    ftl.toml model, its rules, and its translation into spin.toml text,
    with the laws that tie them together (the translation of a valid
    configuration passes the Spin manifest rules);
  - `spin_config`, `spin_validation`: the Spin manifest model and its rules;
  - `resolver`, `registry`, `registry_config`, `tools`: registry references,
    semantic version tags, registry settings and the tools catalogue;
  - `deploy`, `build_command`, `commands`, `app_display`, `auth_status`,
    `credentials`, `user_config`, `tool_check`, `new_tool`, `javascript`,
    `compose`: the decisions and texts of the command line;
  - `documents`: parsed TOML and JSON values and the lookups made in them;
    `tool_check`, `deploy`, `build_command` and `settings` read Cargo.toml,
    ftl.toml, spin.toml, package.json and the configuration file from
    their text;
  - `strmap`, `lines`, `text`, `process`, `settings`, `language`,
    `ftl_language`: the supporting data types and text helpers.
- `tests/` holds the tests, run against the compiled library.
- `app/` is the command line around the library: it reads files, runs
  external tools (`wkg`, `spin`, `crane`, `cargo`), prints, and hands the
  texts it reads to the library.

The few calls into other code (std, semver, toml, toml_edit, serde_json,
base64, handlebars) go through small trusted wrappers whose contracts are
stated in `src/text.rs`, `src/lines.rs`, `src/registry.rs`,
`src/documents.rs`, `src/deploy.rs`, `src/javascript.rs` and
`src/credentials.rs`.
