use wx_uploader::frontmatter::Frontmatter;
use wx_uploader::markdown::{
    decode_frontmatter, encode_frontmatter, format_markdown, join_frontmatter, parse_markdown,
    split_frontmatter,
};
use wx_uploader::{Error, YamlValue};

fn to_node(v: serde_yaml::Value) -> YamlValue {
    match v {
        serde_yaml::Value::Null => YamlValue::Null,
        serde_yaml::Value::Bool(b) => YamlValue::Bool(b),
        serde_yaml::Value::Number(n) => YamlValue::Number(n.to_string()),
        serde_yaml::Value::String(s) => YamlValue::String(s),
        serde_yaml::Value::Sequence(items) => {
            YamlValue::Sequence(items.into_iter().map(to_node).collect())
        }
        serde_yaml::Value::Mapping(m) => {
            YamlValue::Mapping(m.into_iter().map(|(k, v)| (to_node(k), to_node(v))).collect())
        }
        serde_yaml::Value::Tagged(t) => {
            let t = *t;
            YamlValue::Tagged(t.tag.to_string(), Box::new(to_node(t.value)))
        }
    }
}

fn from_node(v: &YamlValue) -> serde_yaml::Value {
    match v {
        YamlValue::Null => serde_yaml::Value::Null,
        YamlValue::Bool(b) => serde_yaml::Value::Bool(*b),
        YamlValue::Number(n) => serde_yaml::from_str(n).unwrap_or(serde_yaml::Value::Null),
        YamlValue::String(s) => serde_yaml::Value::String(s.clone()),
        YamlValue::Sequence(items) => serde_yaml::Value::Sequence(items.iter().map(from_node).collect()),
        YamlValue::Mapping(es) => {
            let mut m = serde_yaml::Mapping::new();
            for (k, v) in es {
                m.insert(from_node(k), from_node(v));
            }
            serde_yaml::Value::Mapping(m)
        }
        YamlValue::Tagged(tag, inner) => serde_yaml::Value::Tagged(Box::new(
            serde_yaml::value::TaggedValue {
                tag: serde_yaml::value::Tag::new(tag.clone()),
                value: from_node(inner),
            },
        )),
    }
}

fn read_yaml(text: &str) -> Result<YamlValue, String> {
    serde_yaml::from_str::<serde_yaml::Value>(text)
        .map(to_node)
        .map_err(|e| format!("YAML error: {}", e))
}

fn write_yaml(node: &YamlValue) -> Result<String, String> {
    serde_yaml::to_string(&from_node(node)).map_err(|e| format!("YAML error: {}", e))
}

fn parse(content: &str) -> Result<(Frontmatter, String), Error> {
    parse_markdown(content, read_yaml)
}

fn format(frontmatter: &Frontmatter, body: &str) -> Result<String, Error> {
    format_markdown(frontmatter.clone(), body, write_yaml)
}

#[test]
fn test_parse_markdown_with_frontmatter() {
    let content = r#"---
title: "Test Article"
published: "draft"
author: "John Doe"
---
# Hello World

This is the content of the article.
"#;

    let (frontmatter, body) = parse(content).unwrap();

    assert_eq!(frontmatter.title, Some("Test Article".to_string()));
    assert_eq!(frontmatter.published, Some("draft".to_string()));
    assert_eq!(body, "# Hello World\n\nThis is the content of the article.\n");

    // Check that additional fields are captured
    assert!(
        frontmatter.other.iter().any(|(k, _)| *k == YamlValue::String("author".to_string())),
        "Expected mapping for other fields"
    );
}

#[test]
fn test_parse_markdown_without_frontmatter() {
    let content = "# Just a Title\n\nSome content without frontmatter.";

    let (frontmatter, body) = parse(content).unwrap();

    assert_eq!(frontmatter.title, None);
    assert_eq!(frontmatter.published, None);
    assert_eq!(body, content);
}

#[test]
fn text_without_block_is_all_body() {
    for content in ["", "---", "---\n", "---\nno closing line", "---\n---\nx", " ---\na\n---\nb", "body\n---\nx\n---\n"] {
        let (frontmatter, body) = parse(content).unwrap();
        assert_eq!(frontmatter, Frontmatter::default());
        assert_eq!(body, content);
    }
}

#[test]
fn test_parse_markdown_empty_frontmatter() {
    let content = r#"---

---
# Content Only

Just the body.
"#;

    let (frontmatter, body) = parse(content).unwrap();

    assert_eq!(frontmatter.title, None);
    assert_eq!(frontmatter.published, None);
    assert_eq!(body, "# Content Only\n\nJust the body.\n");
}

#[test]
fn test_parse_markdown_minimal_frontmatter() {
    let content = r#"---
published: "true"
---
Content here.
"#;

    let (frontmatter, body) = parse(content).unwrap();

    assert_eq!(frontmatter.title, None);
    assert_eq!(frontmatter.published, Some("true".to_string()));
    assert_eq!(body, "Content here.\n");
}

#[test]
fn test_parse_markdown_multiline_content() {
    let content = r#"---
title: "Multi-line Test"
---
# First Line

Second line

Third line with **markdown**.

```rust
fn test() {
    println!("Hello");
}
```
"#;

    let (frontmatter, body) = parse(content).unwrap();

    assert_eq!(frontmatter.title, Some("Multi-line Test".to_string()));
    assert!(body.contains("First Line"));
    assert!(body.contains("```rust"));
    assert!(body.contains("println!"));
}

#[test]
fn test_format_markdown_basic() {
    let mut frontmatter = Frontmatter::default();
    frontmatter.set_title("Test Title");
    frontmatter.set_published("draft");

    let body = "# Content\n\nSome text.";

    let result = format(&frontmatter, body).unwrap();

    assert!(result.starts_with("---\n"));
    assert!(result.contains("title: Test Title"));
    assert!(result.contains("published: draft"));
    assert!(result.contains("---\n# Content"));
    assert!(result.ends_with("Some text."));
}

#[test]
fn test_format_markdown_empty_frontmatter() {
    let frontmatter = Frontmatter::default();
    let body = "Just content.";

    let result = format(&frontmatter, body).unwrap();

    assert!(result.starts_with("---\n"));
    assert!(result.ends_with("---\nJust content."));
    // Should only contain the YAML null marker and body
    assert!(result.contains("null\n") || result.contains("{}\n"));
}

#[test]
fn test_format_markdown_preserves_body_formatting() {
    let mut frontmatter = Frontmatter::default();
    frontmatter.set_title("Formatting Test");

    let body = r#"# Title

## Subtitle

- List item 1
- List item 2

```rust
fn main() {
    println!("Hello");
}
```

End of content."#;

    let result = format(&frontmatter, body).unwrap();

    assert!(result.contains("# Title"));
    assert!(result.contains("## Subtitle"));
    assert!(result.contains("- List item 1"));
    assert!(result.contains("```rust"));
    assert!(result.contains("fn main()"));
    assert!(result.ends_with("End of content."));
}

#[test]
fn test_roundtrip_parse_and_format() {
    let original_content = r#"---
title: "Roundtrip Test"
published: "draft"
author: "Test Author"
tags:
  - rust
  - testing
---
# Test Article

This is a test article with various content.

## Section

More content here.
"#;

    // Parse the content
    let (frontmatter, body) = parse(original_content).unwrap();

    // Format it back
    let formatted = format(&frontmatter, &body).unwrap();

    // Parse again to verify
    let (parsed_frontmatter, parsed_body) = parse(&formatted).unwrap();

    // Verify the data is preserved
    assert_eq!(frontmatter.title, parsed_frontmatter.title);
    assert_eq!(frontmatter.published, parsed_frontmatter.published);
    assert_eq!(body, parsed_body);
}

#[test]
fn round_trip_keeps_every_field_and_extension() {
    let mut fm = Frontmatter::with_title("T: with colon");
    fm.set_published("draft");
    fm.set_cover("images/c.png");
    fm.set_theme("lapis");
    fm.set_code_highlighter("github");
    fm.description = "multi\nline".to_string();
    fm.other.push((
        YamlValue::String("tags".to_string()),
        YamlValue::Sequence(vec![
            YamlValue::String("a".to_string()),
            YamlValue::Number("3".to_string()),
        ]),
    ));
    fm.other.push((YamlValue::String("draft_note".to_string()), YamlValue::Bool(false)));
    let body = "line one\n---\nnot a delimiter for the block\n";
    let text = format(&fm, body).unwrap();
    let (back, back_body) = parse(&text).unwrap();
    assert_eq!(back, fm);
    assert_eq!(back_body, body);
}

#[test]
fn test_parse_markdown_invalid_yaml() {
    let content = r#"---
title: "Test"
invalid: [unclosed bracket
---
Content
"#;

    let result = parse(content);
    assert!(result.is_err());

    let error_message = result.unwrap_err().to_string();
    assert!(error_message.contains("YAML error"));
}

#[test]
fn wrong_kind_of_field_is_refused() {
    let err = parse("---\ntitle: [1, 2]\n---\nbody").unwrap_err();
    assert_eq!(err, Error::InvalidField { key: "title".to_string() });
    let err = parse("---\n- a\n- b\n---\nbody").unwrap_err();
    assert!(matches!(err, Error::Yaml { .. }));
}

#[test]
fn whitelists_are_checked_on_parse() {
    let err = parse("---\ntheme: neon\n---\nbody").unwrap_err();
    assert_eq!(err, Error::InvalidTheme { value: "neon".to_string() });
    let err = parse("---\ntheme: pie\ncode: vs\n---\nbody").unwrap_err();
    assert_eq!(err, Error::InvalidCodeHighlighter { value: "vs".to_string() });
    let (fm, _) = parse("---\ntheme: pie\ncode: dracula\n---\nbody").unwrap();
    assert_eq!(fm.theme, Some("pie".to_string()));
}

#[test]
fn test_frontmatter_with_cover() {
    let content = r#"---
title: "Article with Cover"
published: "draft"
cover: "my-cover.png"
---
# Article Content
"#;

    let (frontmatter, body) = parse(content).unwrap();

    assert_eq!(frontmatter.title, Some("Article with Cover".to_string()));
    assert_eq!(frontmatter.published, Some("draft".to_string()));
    assert_eq!(frontmatter.cover, Some("my-cover.png".to_string()));
    assert!(body.contains("Article Content"));
}

#[test]
fn test_frontmatter_without_cover() {
    let content = r#"---
title: "Article without Cover"
published: "draft"
---
# Article Content
"#;

    let (frontmatter, _) = parse(content).unwrap();

    assert_eq!(frontmatter.title, Some("Article without Cover".to_string()));
    assert_eq!(frontmatter.published, Some("draft".to_string()));
    assert_eq!(frontmatter.cover, None);
}

#[test]
fn test_format_markdown_with_cover() {
    let mut frontmatter = Frontmatter::default();
    frontmatter.set_title("Test Article");
    frontmatter.set_published("draft");
    frontmatter.set_cover("test-cover.png");

    let body = "# Test Content";
    let result = format(&frontmatter, body).unwrap();

    assert!(result.contains("title: Test Article"));
    assert!(result.contains("published: draft"));
    assert!(result.contains("cover: test-cover.png"));
    assert!(result.contains("# Test Content"));
}

#[test]
fn test_frontmatter_serialization() {
    let frontmatter = Frontmatter {
        title: Some("Test Article".to_string()),
        published: Some("draft".to_string()),
        description: "Test Article".to_string(),
        cover: Some("cover.png".to_string()),
        theme: Some("lapis".to_string()),
        code: Some("github".to_string()),
        other: Vec::new(),
    };

    let yaml = write_yaml(&encode_frontmatter(frontmatter.clone())).unwrap();
    assert!(yaml.contains("title: Test Article"));
    assert!(yaml.contains("published: draft"));
    assert!(yaml.contains("cover: cover.png"));
    assert!(yaml.contains("theme: lapis"));
    assert!(yaml.contains("code: github"));

    let deserialized = decode_frontmatter(read_yaml(&yaml).unwrap()).unwrap();
    assert_eq!(frontmatter, deserialized);
}

#[test]
fn split_and_join_frame_the_block() {
    assert_eq!(
        split_frontmatter("---\na: 1\n---\nbody\n---\nmore"),
        Some(("a: 1".to_string(), "body\n---\nmore".to_string()))
    );
    assert_eq!(split_frontmatter("---\n\n---\n"), Some((String::new(), String::new())));
    assert_eq!(split_frontmatter("---\r\na\r\n---\r\n"), None);
    assert_eq!(join_frontmatter("a: 1\n", "body"), "---\na: 1\n---\nbody");
}

#[test]
fn encoding_orders_modelled_fields_then_extensions() {
    let mut fm = Frontmatter::new();
    fm.other.push((YamlValue::String("zeta".to_string()), YamlValue::Null));
    fm.set_cover("c.png");
    fm.set_title("t");
    match encode_frontmatter(fm) {
        YamlValue::Mapping(es) => {
            let keys: Vec<YamlValue> = es.into_iter().map(|(k, _)| k).collect();
            assert_eq!(
                keys,
                vec![
                    YamlValue::String("title".to_string()),
                    YamlValue::String("cover".to_string()),
                    YamlValue::String("zeta".to_string()),
                ]
            );
        }
        other => panic!("not a mapping: {:?}", other),
    }
}

#[test]
fn null_block_and_null_fields_read_as_absent() {
    assert_eq!(decode_frontmatter(YamlValue::Null).unwrap(), Frontmatter::new());
    let (fm, _) = parse("---\ntitle: ~\ncover: null\n---\nx").unwrap();
    assert_eq!(fm.title, None);
    assert_eq!(fm.cover, None);
}

use wx_uploader::providers::{create_dalle_prompt, scene_from_response, ProviderConfig};
use wx_uploader::wechat::{Action, CoverTarget, Event, Notice, Outcome, Publication};

fn loaded(content: &str) -> Event {
    Event::Loaded { result: parse(content) }
}

fn write_of(action: Action) -> (Frontmatter, String) {
    match action {
        Action::WriteArticle { frontmatter, body, .. } => (frontmatter, body),
        other => panic!("expected a write, got {:?}", other),
    }
}

#[test]
fn scenario_plain_article_in_directory_is_uploaded_and_marked() {
    let content = "# Plain\n\nNo metadata here.\n";
    let (mut run, first) = Publication::for_directory_entry("posts/plain.md".to_string(), false);
    assert_eq!(first, Action::ReadArticle { path: "posts/plain.md".to_string() });

    let step = run.step(loaded(content));
    assert_eq!(step.action, Action::Upload { path: "posts/plain.md".to_string() });
    assert_eq!(step.notice, None);

    let step = run.step(Event::Uploaded { result: Ok("draft-7".to_string()) });
    assert_eq!(step.action, Action::ReadArticle { path: "posts/plain.md".to_string() });

    let step = run.step(loaded(content));
    let (fm, body) = write_of(step.action);
    assert_eq!(fm.published, Some("draft".to_string()));
    assert_eq!(body, content);
    let written = format(&fm, &body).unwrap();
    assert!(written.contains("published: draft"));
    assert!(written.ends_with(content));

    let step = run.step(Event::Written { result: Ok(()) });
    assert_eq!(
        step.action,
        Action::Finish { outcome: Outcome::Published { draft_id: "draft-7".to_string() } }
    );
}

#[test]
fn scenario_published_article_is_skipped() {
    let content = "---\npublished: \"true\"\n---\nDone already.\n";
    let (mut run, _) = Publication::for_directory_entry("posts/done.md".to_string(), true);
    let step = run.step(loaded(content));
    assert_eq!(step.action, Action::Finish { outcome: Outcome::Skipped });
    assert_eq!(step.notice, None);
}

#[test]
fn scenario_forced_draft_is_uploaded_again() {
    let content = "---\npublished: \"draft\"\ncover: /nonexistent/c.png\n---\nBody\n";
    let (mut run, _) = Publication::for_file("one.md".to_string(), false);
    assert!(run.force);
    let step = run.step(loaded(content));
    assert_eq!(step.action, Action::CheckCover { path: "/nonexistent/c.png".to_string() });
    let step = run.step(Event::CoverExists { exists: false });
    assert_eq!(step.action, Action::Upload { path: "one.md".to_string() });
    assert_eq!(
        step.notice,
        Some(Notice::CoverMissingNoProvider { cover: "/nonexistent/c.png".to_string() })
    );
    let step = run.step(Event::Uploaded { result: Ok("d".to_string()) });
    assert!(matches!(step.action, Action::ReadArticle { .. }));
    let (fm, _) = write_of(run.step(loaded(content)).action);
    assert_eq!(fm.published, Some("draft".to_string()));
    assert_eq!(fm.cover, Some("/nonexistent/c.png".to_string()));
}

#[test]
fn scenario_missing_cover_with_empty_scene_uses_fallback() {
    let content = "---\ntitle: Trip\n---\nWe went to the sea.\n";
    let (mut run, _) = Publication::for_directory_entry("blog/trip.md".to_string(), true);
    let step = run.step(loaded(content));
    let (file_name, target, generated_from) = match step.action {
        Action::GenerateCover { content, target: CoverTarget::New { file_name, path } } => {
            (file_name, path, content)
        }
        other => panic!("expected a cover generation, got {:?}", other),
    };
    assert_eq!(generated_from, "We went to the sea.\n");
    assert!(file_name.starts_with("trip_cover_"));
    assert!(file_name.ends_with(".png"));
    assert_eq!(file_name.len(), "trip_cover_".len() + 32 + ".png".len());
    assert_eq!(target, format!("blog/{}", file_name));

    // the scene description comes back empty: the fallback is used
    let provider = ProviderConfig::OpenAI { api_key: "k".to_string(), base_url: None };
    let scene = scene_from_response(&provider, r#"{"choices":[{"message":{"content":""}}]}"#);
    assert!(scene.starts_with("A serene landscape"));
    let prompt = create_dalle_prompt(&scene);
    assert!(prompt.ends_with(&scene));

    let step = run.step(Event::CoverGenerated { ok: true });
    assert_eq!(step.notice, Some(Notice::CoverGenerated { cover: file_name.clone() }));
    let (fm, body) = write_of(step.action);
    assert_eq!(fm.cover, Some(file_name));
    assert_eq!(fm.title, Some("Trip".to_string()));
    assert_eq!(body, "We went to the sea.\n");
    let step = run.step(Event::Written { result: Ok(()) });
    assert_eq!(step.action, Action::Upload { path: "blog/trip.md".to_string() });
}

#[test]
fn declared_missing_cover_is_generated_in_place() {
    let content = "---\ncover: img/c.png\n---\nBody\n";
    let (mut run, _) = Publication::for_file("blog/a.md".to_string(), true);
    let step = run.step(loaded(content));
    assert_eq!(step.action, Action::CheckCover { path: "blog/img/c.png".to_string() });
    let step = run.step(Event::CoverExists { exists: false });
    assert_eq!(
        step.action,
        Action::GenerateCover {
            content: "Body\n".to_string(),
            target: CoverTarget::Declared { path: "blog/img/c.png".to_string() },
        }
    );
    // generation fails: the declared cover is kept and the upload goes on
    let step = run.step(Event::CoverGenerated { ok: false });
    assert_eq!(step.action, Action::Upload { path: "blog/a.md".to_string() });
    assert_eq!(step.notice, Some(Notice::CoverFailed));
}

#[test]
fn existing_cover_is_left_alone() {
    let content = "---\ncover: c.png\n---\nBody\n";
    let (mut run, _) = Publication::for_file("a.md".to_string(), true);
    run.step(loaded(content));
    let step = run.step(Event::CoverExists { exists: true });
    assert_eq!(step.action, Action::Upload { path: "a.md".to_string() });
    assert_eq!(step.notice, None);
}

#[test]
fn failures_end_the_run() {
    let (mut run, _) = Publication::for_file("a.md".to_string(), false);
    let step = run.step(Event::Loaded { result: Err(Error::Io { message: "gone".to_string() }) });
    assert_eq!(
        step.action,
        Action::Finish { outcome: Outcome::Failed { error: Error::Io { message: "gone".to_string() } } }
    );

    let (mut run, _) = Publication::for_file("a.md".to_string(), false);
    run.step(loaded("body"));
    let failure = Error::WeChat { message: "WeChat upload failed: denied".to_string() };
    let step = run.step(Event::Uploaded { result: Err(failure.clone()) });
    assert_eq!(step.action, Action::Finish { outcome: Outcome::Failed { error: failure } });

    // an event that does not fit the stage
    let (mut run, _) = Publication::for_file("a.md".to_string(), false);
    let step = run.step(Event::Written { result: Ok(()) });
    assert!(matches!(step.action, Action::Finish { outcome: Outcome::Failed { .. } }));

    // parse errors end only this run
    let (mut run, _) = Publication::for_directory_entry("bad.md".to_string(), false);
    let step = run.step(loaded("---\ntheme: neon\n---\nx"));
    assert_eq!(
        step.action,
        Action::Finish {
            outcome: Outcome::Failed { error: Error::InvalidTheme { value: "neon".to_string() } }
        }
    );
}

#[test]
fn unquoted_scalars_are_read_as_their_text() {
    // the article files of the original's directory discovery test
    let published = "---\ntitle: Published\npublished: true\ndescription: Published article\n---\n# Published";
    let (fm, body) = parse(published).unwrap();
    assert_eq!(fm.published, Some("true".to_string()));
    assert!(fm.is_published());
    assert_eq!(body, "# Published");

    let advanced = "---\ntitle: Advanced\npublished: false\ndescription: Advanced article\n---\n# Advanced";
    let (fm, _) = parse(advanced).unwrap();
    assert_eq!(fm.published, Some("false".to_string()));
    assert!(!fm.is_published());

    let draft = "---\ntitle: Draft\npublished: draft\ndescription: Draft article\n---\n# Draft";
    let (fm, _) = parse(draft).unwrap();
    assert!(fm.is_draft());

    let (fm, _) = parse("---\ntitle: 2024\ndescription: 3.5\n---\nx").unwrap();
    assert_eq!(fm.title, Some("2024".to_string()));
    assert_eq!(fm.description, "3.5");
}

#[test]
fn published_scalar_does_not_hide_a_bad_theme() {
    let err = parse("---\npublished: true\ntheme: neon\n---\nx").unwrap_err();
    assert_eq!(err, Error::InvalidTheme { value: "neon".to_string() });
}

#[test]
fn absent_fields_are_not_written() {
    let mut fm = Frontmatter::new();
    fm.set_cover("c.png");
    let text = format(&fm, "body").unwrap();
    assert_eq!(text, "---\ncover: c.png\n---\nbody");
    assert!(!text.contains("null"));
    assert!(!text.contains("title"));
    assert!(!text.contains("description"));
}

#[test]
fn copying_a_node_keeps_it() {
    let node = YamlValue::Mapping(vec![(
        YamlValue::String("k".to_string()),
        YamlValue::Sequence(vec![
            YamlValue::Number("1".to_string()),
            YamlValue::Tagged("!t".to_string(), Box::new(YamlValue::Bool(true))),
        ]),
    )]);
    assert_eq!(node.clone(), node);
}
