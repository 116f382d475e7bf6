//! The catalogue of pre-built tools.

use ftl::tools::{is_text_before, Tool, ToolsManifest};

/// Reads a tools manifest written in TOML (`[[tools]]` tables).
fn manifest_from_toml(content: &str) -> ToolsManifest {
    let table: toml::Table = content.parse().unwrap();
    let tools = table["tools"]
        .as_array()
        .unwrap()
        .iter()
        .map(|t| Tool {
            name: t["name"].as_str().unwrap().to_string(),
            category: t["category"].as_str().unwrap().to_string(),
            description: t["description"].as_str().unwrap().to_string(),
            image_name: t["image_name"].as_str().unwrap().to_string(),
            tags: t["tags"]
                .as_array()
                .unwrap()
                .iter()
                .map(|g| g.as_str().unwrap().to_string())
                .collect(),
        })
        .collect();
    ToolsManifest { tools }
}

fn tool(name: &str, category: &str, tags: &[&str]) -> Tool {
    Tool {
        name: name.to_string(),
        category: category.to_string(),
        description: String::new(),
        image_name: format!("ftl-tool-{name}"),
        tags: tags.iter().map(|t| t.to_string()).collect(),
    }
}

#[test]
fn test_tools_manifest_parsing() {
    let toml_content = r#"
[[tools]]
name = "add"
category = "basic_math"
description = "Add two numbers together"
image_name = "ftl-tool-add"
tags = ["math", "arithmetic", "basic"]

[[tools]]
name = "uppercase"
category = "text_processing"
description = "Convert text to uppercase"
image_name = "ftl-tool-uppercase"
tags = ["text", "string", "formatting"]
"#;

    let manifest = manifest_from_toml(toml_content);
    assert_eq!(manifest.count(), 2);

    let add_tool = manifest.find_tool("add").unwrap();
    assert_eq!(add_tool.category, "basic_math");
    assert_eq!(add_tool.description, "Add two numbers together");
    assert!(add_tool.has_tag("math"));

    let categories = manifest.get_categories();
    assert!(categories.contains(&"basic_math".to_string()));
    assert!(categories.contains(&"text_processing".to_string()));

    let math_tools = manifest.get_tools_by_category("basic_math");
    assert_eq!(math_tools.len(), 1);
    assert_eq!(math_tools[0].name, "add");
}

#[test]
fn test_tool_image_ref() {
    let tool = Tool {
        name: "add".to_string(),
        category: "basic_math".to_string(),
        description: "Add two numbers".to_string(),
        image_name: "ftl-tool-add".to_string(),
        tags: vec!["math".to_string()],
    };

    assert_eq!(tool.get_image_ref("docker.io"), "docker.io/ftl-tool-add");
    assert_eq!(
        tool.get_image_ref("ghcr.io/fastertools"),
        "ghcr.io/fastertools/ftl-tool-add"
    );
}

#[test]
fn test_search_by_tag() {
    let toml_content = r#"
[[tools]]
name = "add"
category = "basic_math"
description = "Add two numbers together"
image_name = "ftl-tool-add"
tags = ["math", "arithmetic", "basic"]

[[tools]]
name = "multiply"
category = "basic_math"
description = "Multiply two numbers"
image_name = "ftl-tool-multiply"
tags = ["math", "arithmetic", "basic"]

[[tools]]
name = "uppercase"
category = "text_processing"
description = "Convert text to uppercase"
image_name = "ftl-tool-uppercase"
tags = ["text", "string", "formatting"]
"#;

    let manifest = manifest_from_toml(toml_content);
    let math_tools = manifest.search_by_tag("math");
    assert_eq!(math_tools.len(), 2);

    let text_tools = manifest.search_by_tag("text");
    assert_eq!(text_tools.len(), 1);
    assert_eq!(text_tools[0].name, "uppercase");
}

#[test]
fn categories_are_sorted_and_distinct() {
    let manifest = ToolsManifest {
        tools: vec![
            tool("a", "zeta", &[]),
            tool("b", "alpha", &[]),
            tool("c", "zeta", &[]),
            tool("d", "Beta", &[]),
            tool("e", "alphabet", &[]),
            tool("f", "alpha", &[]),
        ],
    };
    assert_eq!(
        manifest.get_categories(),
        vec!["Beta".to_string(), "alpha".to_string(), "alphabet".to_string(), "zeta".to_string()]
    );
    assert!(ToolsManifest { tools: vec![] }.get_categories().is_empty());
}

#[test]
fn text_order_follows_string_order() {
    let words = ["", "a", "ab", "b", "B", "é", "z", "aa", "ä"];
    for x in words {
        for y in words {
            assert_eq!(is_text_before(x, y), x < y, "{x:?} < {y:?}");
        }
    }
}

#[test]
fn lookups_keep_catalogue_order() {
    let manifest = ToolsManifest {
        tools: vec![
            tool("x", "c1", &["t"]),
            tool("y", "c2", &["t", "u"]),
            tool("x", "c1", &["u"]),
        ],
    };
    let first = manifest.find_tool("x").unwrap();
    assert_eq!(first.tags, vec!["t".to_string()]);
    assert!(manifest.find_tool("nope").is_none());
    let c1: Vec<&str> = manifest
        .get_tools_by_category("c1")
        .iter()
        .map(|t| t.tags[0].as_str())
        .collect();
    assert_eq!(c1, vec!["t", "u"]);
    let u: Vec<&str> = manifest.search_by_tag("u").iter().map(|t| t.name.as_str()).collect();
    assert_eq!(u, vec!["y", "x"]);
    assert_eq!(manifest.get_tools().len(), 3);
    assert!(!manifest.tools[0].has_tag("u"));
}
