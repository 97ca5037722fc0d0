use termhelp::help_page::{HelpArg, HelpOption, HelpPage, HelpSubcommand};
use termhelp::renderer::{
    compose, render_examples, render_header, render_notes, render_options, render_positionals,
    render_subcommands, render_usage,
};

fn strings(items: &[&str]) -> Vec<String> {
    items.iter().map(|s| s.to_string()).collect()
}

fn blank(app_name: &str, usage: &str) -> HelpPage {
    HelpPage {
        app_name: app_name.to_string(),
        version: None,
        path: String::new(),
        summary: None,
        description: None,
        usage: usage.to_string(),
        positionals: Vec::new(),
        options: Vec::new(),
        subcommands: Vec::new(),
        examples: Vec::new(),
        notes: Vec::new(),
    }
}

fn header_of(page: &HelpPage) -> String {
    let mut md = String::new();
    render_header(&mut md, page);
    md
}

fn usage_of(usage: &str, exec_name: &str) -> String {
    let mut md = String::new();
    render_usage(&mut md, &blank("app", usage), exec_name);
    md
}

#[test]
fn header_shows_name_and_path() {
    let page = HelpPage {
        path: "remote add".to_string(),
        version: Some("1.0".to_string()),
        ..blank("git", "")
    };
    assert_eq!(header_of(&page), "# git remote add\n");
}

#[test]
fn header_shows_version_when_there_is_no_path() {
    let page = HelpPage { version: Some("1.0".to_string()), ..blank("git", "") };
    assert_eq!(header_of(&page), "# git v1.0\n");
}

#[test]
fn header_shows_name_alone_without_path_or_version() {
    assert_eq!(header_of(&blank("git", "")), "# git\n");
}

#[test]
fn header_adds_summary_and_description_as_paragraphs() {
    let page = HelpPage {
        summary: Some("Short".to_string()),
        description: Some("Long text".to_string()),
        ..blank("git", "")
    };
    assert_eq!(header_of(&page), "# git\nShort\n\nLong text\n\n");
}

#[test]
fn header_skips_empty_summary_and_description() {
    let page = HelpPage {
        summary: Some(String::new()),
        description: Some(String::new()),
        ..blank("git", "")
    };
    assert_eq!(header_of(&page), "# git\n");
    let page = HelpPage { summary: Some(String::new()), description: Some("D".to_string()), ..blank("git", "") };
    assert_eq!(header_of(&page), "# git\nD\n\n");
}

#[test]
fn header_is_appended_to_what_is_there() {
    let mut md = String::from("before\n");
    render_header(&mut md, &blank("git", ""));
    assert_eq!(md, "before\n# git\n");
}

#[test]
fn usage_strips_the_label_and_keeps_a_line_that_starts_with_the_executable() {
    assert_eq!(usage_of("Usage: tool [OPTIONS] <FILE>", "tool"), "**Usage:** `tool [OPTIONS] <FILE>`\n");
}

#[test]
fn usage_gets_the_executable_in_front_when_it_starts_otherwise() {
    assert_eq!(usage_of("Usage: app commit <MSG>", "tool"), "**Usage:** `tool app commit <MSG>`\n");
}

#[test]
fn usage_without_label_is_only_trimmed() {
    assert_eq!(usage_of("  tool run \t\n", "tool"), "**Usage:** `tool run`\n");
}

#[test]
fn usage_trims_unicode_white_space() {
    assert_eq!(usage_of("Usage:\u{a0}\u{2003}tool x\u{3000}", "tool"), "**Usage:** `tool x`\n");
}

#[test]
fn usage_strips_the_label_only_at_the_start() {
    assert_eq!(usage_of("tool Usage: x", "tool"), "**Usage:** `tool Usage: x`\n");
    assert_eq!(usage_of("Usage: Usage: x", "tool"), "**Usage:** `tool Usage: x`\n");
}

#[test]
fn usage_of_an_empty_line() {
    assert_eq!(usage_of("", "tool"), "**Usage:** `tool `\n");
    assert_eq!(usage_of("Usage:", "tool"), "**Usage:** `tool `\n");
    assert_eq!(usage_of("Usage: x", ""), "**Usage:** `x`\n");
}

#[test]
fn usage_prefix_test_is_on_text_not_on_words() {
    assert_eq!(usage_of("Usage: toolbox run", "tool"), "**Usage:** `toolbox run`\n");
    assert_eq!(usage_of("Usage: too", "tool"), "**Usage:** `tool too`\n");
}

#[test]
fn subcommand_table() {
    let page = HelpPage {
        subcommands: vec![
            HelpSubcommand { name: "add".to_string(), summary: Some("Add one".to_string()) },
            HelpSubcommand { name: "rm".to_string(), summary: None },
        ],
        ..blank("git", "")
    };
    let mut md = String::new();
    render_subcommands(&mut md, &page);
    assert_eq!(
        md,
        "**Subcommands:**\n|:-|:-\n| command | description |\n|:-|:-\n| add | Add one |\n| rm |  |\n|-\n\n"
    );
}

#[test]
fn positional_list() {
    let page = HelpPage {
        positionals: vec![
            HelpArg { name: "SRC".to_string(), description: Some("From".to_string()), required: true, multiple: false },
            HelpArg { name: "DST".to_string(), description: None, required: false, multiple: true },
            HelpArg { name: "ALL".to_string(), description: Some("Each".to_string()), required: true, multiple: true },
        ],
        ..blank("git", "")
    };
    let mut md = String::new();
    render_positionals(&mut md, &page);
    assert_eq!(
        md,
        "**Arguments:**\n* `SRC`: From *(~~required~~)*\n* `DST`:  *(~~optional~~, ~~multiple~~)*\n* `ALL`: Each *(~~required~~, ~~multiple~~)*\n\n"
    );
}

#[test]
fn option_table() {
    let page = HelpPage {
        options: vec![
            HelpOption {
                short: Some('v'),
                long: Some("verbose".to_string()),
                value: None,
                description: "Say more".to_string(),
                default: String::new(),
            },
            HelpOption {
                short: Some('j'),
                long: Some("jobs".to_string()),
                value: Some("N_Jobs".to_string()),
                description: "Workers".to_string(),
                default: "1, 2".to_string(),
            },
            HelpOption {
                short: None,
                long: Some("mode".to_string()),
                value: Some("MODE".to_string()),
                description: String::new(),
                default: "fast".to_string(),
            },
            HelpOption {
                short: Some('x'),
                long: None,
                value: Some("ÄB".to_string()),
                description: "Odd".to_string(),
                default: String::new(),
            },
        ],
        ..blank("git", "")
    };
    let mut md = String::new();
    render_options(&mut md, &page);
    let expected = "**Options:**\n|:-:|:-:|-\n|short|long|description|\n|:-:|:-|-\n\
| -v | --verbose | Say more\n\
| -j ~~<n_jobs>~~ | --jobs ~~<n_jobs>~~ | Workers *(defaults to 1, 2)*\n\
|  | --mode ~~<mode>~~ |  *(defaults to fast)*\n\
| -x ~~<Äb>~~ |  ~~<Äb>~~ | Odd\n\
|-\n\n";
    assert_eq!(md, expected);
}

#[test]
fn examples_are_numbered_from_one() {
    let page = HelpPage { examples: strings(&["a", "b", "c"]), ..blank("git", "") };
    let mut md = String::new();
    render_examples(&mut md, &page);
    assert_eq!(md, "**Examples:**\n~~1)~~ a\n~~2)~~ b\n~~3)~~ c\n\n");
}

#[test]
fn example_numbers_are_decimal() {
    let many: Vec<String> = (0..12).map(|i| format!("e{i}")).collect();
    let page = HelpPage { examples: many, ..blank("git", "") };
    let mut md = String::new();
    render_examples(&mut md, &page);
    let lines: Vec<&str> = md.lines().collect();
    assert_eq!(lines[0], "**Examples:**");
    assert_eq!(lines[9], "~~9)~~ e8");
    assert_eq!(lines[10], "~~10)~~ e9");
    assert_eq!(lines[12], "~~12)~~ e11");
    assert!(md.ends_with("e11\n\n"));
}

#[test]
fn notes_are_bullets_without_a_final_line_end() {
    let page = HelpPage { notes: strings(&["one", "two"]), ..blank("git", "") };
    let mut md = String::new();
    render_notes(&mut md, &page);
    assert_eq!(md, "**Notes:**\n- one\n- two");
}

#[test]
fn empty_sections_write_nothing() {
    let page = blank("git", "");
    let mut md = String::from("x");
    render_subcommands(&mut md, &page);
    render_positionals(&mut md, &page);
    render_options(&mut md, &page);
    render_examples(&mut md, &page);
    render_notes(&mut md, &page);
    assert_eq!(md, "x");
}

#[test]
fn page_with_one_required_file_argument() {
    let page = HelpPage {
        positionals: vec![HelpArg {
            name: "FILE".to_string(),
            description: Some("The file".to_string()),
            required: true,
            multiple: false,
        }],
        ..blank("cat", "Usage: cat <FILE>")
    };
    let md = compose(&page, "cat");
    assert_eq!(md, "# cat\n**Usage:** `cat <FILE>`\n**Arguments:**\n* `FILE`: The file *(~~required~~)*\n\n");
    let lines: Vec<&str> = md.lines().collect();
    assert!(lines[0].starts_with("# "));
    assert!(lines[1].contains("FILE"));
    assert!(!md.contains("**Subcommands:**"));
    assert!(!md.contains("**Options:**"));
    assert!(md.contains("FILE") && md.contains("~~required~~"));
}

#[test]
fn sections_come_in_the_fixed_order() {
    let page = HelpPage {
        version: Some("3".to_string()),
        summary: Some("S".to_string()),
        description: Some("D".to_string()),
        positionals: vec![HelpArg { name: "A".to_string(), description: None, required: false, multiple: false }],
        options: vec![HelpOption {
            short: Some('q'),
            long: None,
            value: None,
            description: "Quiet".to_string(),
            default: String::new(),
        }],
        subcommands: vec![HelpSubcommand { name: "sub".to_string(), summary: None }],
        examples: strings(&["ex"]),
        notes: strings(&["nt"]),
        ..blank("app", "Usage: app [A]")
    };
    let md = compose(&page, "app");
    let expected = "# app v3\nS\n\nD\n\n**Usage:** `app [A]`\n\
**Subcommands:**\n|:-|:-\n| command | description |\n|:-|:-\n| sub |  |\n|-\n\n\
**Arguments:**\n* `A`:  *(~~optional~~)*\n\n\
**Options:**\n|:-:|:-:|-\n|short|long|description|\n|:-:|:-|-\n| -q |  | Quiet\n|-\n\n\
**Examples:**\n~~1)~~ ex\n\n\
**Notes:**\n- nt";
    assert_eq!(md, expected);
}

#[test]
fn composing_twice_gives_the_same_document() {
    let page = HelpPage { examples: strings(&["a"]), ..blank("app", "Usage: app") };
    assert_eq!(compose(&page, "app"), compose(&page, "app"));
}
