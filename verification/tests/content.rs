use termhelp::command_tree::{ArgSpec, CommandNode, ValueRange};
use termhelp::doc_registry::{CommandDoc, DocRegistry};
use termhelp::help_command::{help_content, HelpArgs, HelpContent, HelpError};
use termhelp::text::{
    chars_of, contains_text, join_texts, same_text, string_of, to_ascii_lower, trim_bounds,
};

fn file_arg() -> ArgSpec {
    ArgSpec {
        id: "FILE".to_string(),
        help: Some("The file".to_string()),
        positional: true,
        required: true,
        num_args: Some(ValueRange { min_values: 1, max_values: 1 }),
        short: None,
        long: None,
        takes_values: true,
        value_names: vec!["FILE".to_string()],
        default_values: Vec::new(),
    }
}

fn tree() -> CommandNode {
    CommandNode {
        name: "tool".to_string(),
        about: Some("A tool".to_string()),
        long_about: None,
        usage: "Usage: tool <COMMAND>".to_string(),
        args: Vec::new(),
        subcommands: vec![CommandNode {
            name: "show".to_string(),
            about: Some("Show a file".to_string()),
            long_about: Some("Shows it.".to_string()),
            usage: "Usage: tool show <FILE>".to_string(),
            args: vec![file_arg()],
            subcommands: Vec::new(),
        }],
    }
}

fn topic(segments: &[&str]) -> Vec<String> {
    segments.iter().map(|s| s.to_string()).collect()
}

#[test]
fn root_with_one_required_file_argument() {
    let root = CommandNode {
        name: "cat".to_string(),
        about: None,
        long_about: None,
        usage: "Usage: cat <FILE>".to_string(),
        args: vec![file_arg()],
        subcommands: Vec::new(),
    };
    let docs = DocRegistry::new();
    let markdown = match help_content("cat", "cat", None, &root, &docs, &topic(&[])) {
        Ok(HelpContent::Page { markdown, .. }) => markdown,
        _ => panic!("expected a page"),
    };
    assert_eq!(
        markdown,
        "# cat\n**Usage:** `cat <FILE>`\n**Arguments:**\n* `FILE`: The file *(~~required~~)*\n\n"
    );
    let lines: Vec<&str> = markdown.lines().collect();
    assert_eq!(lines[0], "# cat");
    assert!(lines[1].starts_with("**Usage:**") && lines[1].contains("FILE"));
    assert!(!markdown.contains("**Subcommands:**"));
    assert!(!markdown.contains("**Options:**"));
    assert_eq!(lines[2], "**Arguments:**");
    assert!(lines[3].contains("`FILE`") && lines[3].contains("~~required~~"));
}

#[test]
fn unknown_topic_has_a_message() {
    assert_eq!(HelpError::UnknownTopic.message(), "Unknown help topic");
}

#[test]
fn default_registry_is_empty() {
    let docs = DocRegistry::default();
    assert!(docs.command("").is_none());
    assert!(docs.guide("").is_none());
}

#[test]
fn program_help_is_built_under_the_application_name() {
    let docs = DocRegistry::new();
    match help_content("Tool", "tool", Some("2.0"), &tree(), &docs, &topic(&[])) {
        Ok(HelpContent::Page { title, markdown }) => {
            assert_eq!(title, "Tool");
            assert_eq!(
                markdown,
                "# Tool v2.0\nA tool\n\n**Usage:** `tool <COMMAND>`\n**Subcommands:**\n|:-|:-\n| command | description |\n|:-|:-\n| show | Show a file |\n|-\n\n"
            );
        },
        _ => panic!("expected a page"),
    }
}

#[test]
fn program_help_takes_the_annotation_of_the_empty_path() {
    let mut docs = DocRegistry::new();
    docs.register_command(
        String::new(),
        CommandDoc::new("All about it".to_string(), vec!["tool show x".to_string()], Vec::new()),
    );
    match help_content("Tool", "tool", None, &tree(), &docs, &topic(&[])) {
        Ok(HelpContent::Page { markdown, .. }) => {
            assert!(markdown.starts_with("# Tool\nA tool\n\nAll about it\n\n**Usage:**"));
            assert!(markdown.ends_with("**Examples:**\n~~1)~~ tool show x\n\n"));
        },
        _ => panic!("expected a page"),
    }
}

#[test]
fn command_help_is_built_under_the_application_name() {
    let mut docs = DocRegistry::new();
    docs.register_command(
        "show".to_string(),
        CommandDoc::new(String::new(), Vec::new(), vec!["Careful".to_string()]),
    );
    match help_content("Tool", "tool-bin", Some("2.0"), &tree(), &docs, &topic(&["show"])) {
        Ok(HelpContent::Page { title, markdown }) => {
            assert_eq!(title, "Tool");
            assert_eq!(
                markdown,
                "# Tool show\nShow a file\n\nShows it.\n\n**Usage:** `tool-bin tool show <FILE>`\n**Arguments:**\n* `FILE`: The file *(~~required~~)*\n\n**Notes:**\n- Careful"
            );
        },
        _ => panic!("expected a page"),
    }
}

#[test]
fn executable_name_serves_the_usage_line_only() {
    let docs = DocRegistry::new();
    let with = |exec: &str| match help_content("Tool", exec, None, &tree(), &docs, &topic(&["show"])) {
        Ok(HelpContent::Page { title, markdown }) => (title, markdown),
        _ => panic!("expected a page"),
    };
    let (title_a, doc_a) = with("tool");
    let (title_b, doc_b) = with("other");
    assert_eq!(title_a, "Tool");
    assert_eq!(title_b, "Tool");
    assert!(doc_a.contains("**Usage:** `tool show <FILE>`\n"));
    assert!(doc_b.contains("**Usage:** `other tool show <FILE>`\n"));
    assert_eq!(
        doc_a.replace("**Usage:** `tool show <FILE>`", ""),
        doc_b.replace("**Usage:** `other tool show <FILE>`", "")
    );
}

#[test]
fn guide_is_shown_as_registered() {
    let mut docs = DocRegistry::new();
    docs.register_guide("show".to_string(), "# Showing\ntext".to_string());
    match help_content("Tool", "tool", None, &tree(), &docs, &topic(&["show", "guide", "x"])) {
        Ok(HelpContent::Guide { markdown }) => assert_eq!(markdown, "# Showing\ntext"),
        _ => panic!("expected a guide"),
    }
}

#[test]
fn guide_of_the_program_is_kept_under_the_empty_path() {
    let mut docs = DocRegistry::new();
    docs.register_guide(String::new(), "root guide".to_string());
    match help_content("Tool", "tool", None, &tree(), &docs, &topic(&["guide"])) {
        Ok(HelpContent::Guide { markdown }) => assert_eq!(markdown, "root guide"),
        _ => panic!("expected a guide"),
    }
}

#[test]
fn guide_under_the_application_name_is_not_the_guide_of_the_program() {
    let mut docs = DocRegistry::new();
    docs.register_guide("Tool".to_string(), "named guide".to_string());
    match help_content("Tool", "tool", None, &tree(), &docs, &topic(&["guide"])) {
        Ok(HelpContent::GuideNotFound { path }) => assert_eq!(path, ""),
        _ => panic!("expected a missing guide"),
    }
}

#[test]
fn missing_guide_is_reported_with_its_path() {
    let docs = DocRegistry::new();
    match help_content("Tool", "tool", None, &tree(), &docs, &topic(&["show", "guide"])) {
        Ok(HelpContent::GuideNotFound { path }) => assert_eq!(path, "show"),
        _ => panic!("expected a missing guide"),
    }
    match help_content("Tool", "tool", None, &tree(), &docs, &topic(&["guide"])) {
        Ok(HelpContent::GuideNotFound { path }) => assert_eq!(path, ""),
        _ => panic!("expected a missing guide"),
    }
}

#[test]
fn unknown_topic_is_an_error() {
    let docs = DocRegistry::new();
    assert!(matches!(
        help_content("Tool", "tool", None, &tree(), &docs, &topic(&["deploy"])),
        Err(HelpError::UnknownTopic)
    ));
    assert!(matches!(
        help_content("Tool", "tool", None, &tree(), &docs, &topic(&["show", "more"])),
        Err(HelpError::UnknownTopic)
    ));
}

#[test]
fn help_args_hold_the_topic() {
    let args = HelpArgs { topic: topic(&["show"]) };
    let docs = DocRegistry::new();
    assert!(matches!(
        help_content("Tool", "tool", None, &tree(), &docs, &args.topic),
        Ok(HelpContent::Page { .. })
    ));
    assert_eq!(args.clone().topic, topic(&["show"]));
}

#[test]
fn text_helpers() {
    assert_eq!(chars_of("aß日"), vec!['a', 'ß', '日']);
    assert_eq!(string_of(&vec!['a', 'ß', '日', 'z'], 1, 3), "ß日");
    assert_eq!(string_of(&vec!['a'], 1, 1), "");
    assert!(same_text("guide", "guide"));
    assert!(!same_text("guide", "guides"));
    assert!(!same_text("guide", "guidE"));
    assert!(same_text("", ""));
    assert_eq!(to_ascii_lower("AbC-Z@[`{ÄÖ"), "abc-z@[`{ÄÖ");
    assert_eq!(join_texts(&topic(&["a", "", "c"]), ", "), "a, , c");
    assert_eq!(join_texts(&topic(&[]), ", "), "");
    assert_eq!(join_texts(&topic(&["a"]), ", "), "a");
}

#[test]
fn white_space_is_what_the_standard_library_says() {
    for code in 0u32..=0x10FFFF {
        if let Some(c) = char::from_u32(code) {
            let (lo, hi) = trim_bounds(&vec![c], 0);
            assert_eq!(lo == hi, c.is_whitespace(), "U+{code:04X}");
        }
    }
}

#[test]
fn trimming_takes_white_space_from_both_ends_only() {
    let chars: Vec<char> = " \t a b\u{2003}\n".chars().collect();
    assert_eq!(trim_bounds(&chars, 0), (3, 6));
    assert_eq!(trim_bounds(&chars, 4), (5, 6));
    assert_eq!(trim_bounds(&chars, 6), (8, 8));
    assert_eq!(trim_bounds(&Vec::new(), 0), (0, 0));
}

#[test]
fn finding_a_text_in_another() {
    assert!(contains_text("\x1b[1mPgUp\x1b[0m", "PgUp"));
    assert!(contains_text("abc", ""));
    assert!(contains_text("", ""));
    assert!(contains_text("abc", "abc"));
    assert!(contains_text("abc", "c"));
    assert!(contains_text("aab", "ab"));
    assert!(!contains_text("abc", "abcd"));
    assert!(!contains_text("abc", "ac"));
    assert!(!contains_text("", "a"));
    assert!(!contains_text("a\x1b[0mb", "ab"));
}
