//! Composing a help page into one markdown document.
//!
//! The sections come in a fixed order: header, usage, subcommands,
//! arguments, options, examples, notes. Header and usage are always there;
//! each of the others is left out whole when it has nothing to show.
use vstd::prelude::*;

use crate::help_page::{
    HelpArg, HelpArgView, HelpOption, HelpOptionView, HelpPage, HelpPageView, HelpSubcommand,
    HelpSubcommandView,
};
use crate::text::{
    ascii_lower, chars_of, concat_all, decimal, has_prefix_at, is_white_space, join_with,
    lemma_concat_next, lemma_join_next, push_char, push_decimal, string_of, to_ascii_lower,
    trim_bounds, trim_start, trimmed,
};

verus! {

/// A text that may be absent, or empty for an absent one.
pub open spec fn shown(text: Option<Seq<char>>) -> Seq<char> {
    match text {
        Some(t) => t,
        None => Seq::empty(),
    }
}

/// The title: the name with the path; without a path the name with the
/// version; without either the name alone.
pub open spec fn title_line(p: HelpPageView) -> Seq<char> {
    if p.path.len() > 0 {
        "# "@ + p.app_name + " "@ + p.path + "\n"@
    } else {
        match p.version {
            Some(v) => "# "@ + p.app_name + " v"@ + v + "\n"@,
            None => "# "@ + p.app_name + "\n"@,
        }
    }
}

/// A paragraph of its own for a text that is there and not empty.
pub open spec fn paragraph(text: Option<Seq<char>>) -> Seq<char> {
    if shown(text).len() > 0 {
        shown(text) + "\n"@ + "\n"@
    } else {
        Seq::empty()
    }
}

/// The header: title, summary, description.
pub open spec fn header_section(p: HelpPageView) -> Seq<char> {
    title_line(p) + paragraph(p.summary) + paragraph(p.description)
}

/// The label that a usage line of the tree may start with.
pub open spec fn usage_label() -> Seq<char> {
    "Usage:"@
}

/// A usage line without the label at its start, if it has one.
pub open spec fn without_label(usage: Seq<char>) -> Seq<char> {
    if usage_label().is_prefix_of(usage) {
        usage.subrange(usage_label().len() as int, usage.len() as int)
    } else {
        usage
    }
}

/// The usage as shown: label and surrounding white space taken off, and
/// the executable's name put in front unless the line starts with it.
pub open spec fn usage_line(usage: Seq<char>, exec_name: Seq<char>) -> Seq<char> {
    let bare = trimmed(without_label(usage));
    if exec_name.is_prefix_of(bare) {
        bare
    } else {
        exec_name + " "@ + bare
    }
}

/// The usage section.
pub open spec fn usage_section(p: HelpPageView, exec_name: Seq<char>) -> Seq<char> {
    "**Usage:** `"@ + usage_line(p.usage, exec_name) + "`\n"@
}

/// One row of the subcommand table.
pub open spec fn subcommand_row(sc: HelpSubcommandView) -> Seq<char> {
    "| "@ + sc.name + " | "@ + shown(sc.summary) + " |\n"@
}

/// The rows of the subcommand table, in order.
pub open spec fn subcommand_rows(list: Seq<HelpSubcommandView>) -> Seq<Seq<char>> {
    Seq::new(list.len(), |i: int| subcommand_row(list[i]))
}

/// The subcommand table, or nothing where there is no subcommand.
pub open spec fn subcommand_section(p: HelpPageView) -> Seq<char> {
    if p.subcommands.len() == 0 {
        Seq::empty()
    } else {
        "**Subcommands:**\n"@ + "|:-|:-\n"@ + "| command | description |\n"@ + "|:-|:-\n"@
            + concat_all(subcommand_rows(p.subcommands)) + "|-\n"@ + "\n"@
    }
}

/// One bullet of the argument list.
pub open spec fn positional_row(arg: HelpArgView) -> Seq<char> {
    "* `"@ + arg.name + "`: "@ + shown(arg.description) + " *("@ + (if arg.required {
        "~~required~~"@
    } else {
        "~~optional~~"@
    }) + (if arg.multiple {
        ", ~~multiple~~"@
    } else {
        Seq::empty()
    }) + ")*\n"@
}

/// The bullets of the argument list, in order.
pub open spec fn positional_rows(list: Seq<HelpArgView>) -> Seq<Seq<char>> {
    Seq::new(list.len(), |i: int| positional_row(list[i]))
}

/// The argument list, or nothing where there is no positional argument.
pub open spec fn positional_section(p: HelpPageView) -> Seq<char> {
    if p.positionals.len() == 0 {
        Seq::empty()
    } else {
        "**Arguments:**\n"@ + concat_all(positional_rows(p.positionals)) + "\n"@
    }
}

/// The hint that an option takes a value, with the placeholder in small
/// letters.
pub open spec fn value_hint(value: Option<Seq<char>>) -> Seq<char> {
    match value {
        Some(v) => " ~~<"@ + ascii_lower(v) + ">~~"@,
        None => Seq::empty(),
    }
}

/// The first cell of an option row: the short flag with its value hint,
/// empty for an option without a short flag.
pub open spec fn short_cell(o: HelpOptionView) -> Seq<char> {
    match o.short {
        Some(c) => "-"@.push(c) + value_hint(o.value),
        None => Seq::empty(),
    }
}

/// The second cell of an option row: the long flag, then the value hint.
pub open spec fn long_cell(o: HelpOptionView) -> Seq<char> {
    (match o.long {
        Some(l) => "--"@ + l,
        None => Seq::empty(),
    }) + value_hint(o.value)
}

/// The third cell of an option row: the description, and the defaults
/// where there are any.
pub open spec fn description_cell(o: HelpOptionView) -> Seq<char> {
    if o.default.len() > 0 {
        o.description + " *(defaults to "@ + o.default + ")*"@
    } else {
        o.description
    }
}

/// One row of the option table.
pub open spec fn option_row(o: HelpOptionView) -> Seq<char> {
    "| "@ + short_cell(o) + " | "@ + long_cell(o) + " | "@ + description_cell(o) + "\n"@
}

/// The rows of the option table, in order.
pub open spec fn option_rows(list: Seq<HelpOptionView>) -> Seq<Seq<char>> {
    Seq::new(list.len(), |i: int| option_row(list[i]))
}

/// The option table, or nothing where there is no option.
pub open spec fn option_section(p: HelpPageView) -> Seq<char> {
    if p.options.len() == 0 {
        Seq::empty()
    } else {
        "**Options:**\n"@ + "|:-:|:-:|-\n"@ + "|short|long|description|\n"@ + "|:-:|:-|-\n"@
            + concat_all(option_rows(p.options)) + "|-\n"@ + "\n"@
    }
}

/// The examples as numbered lines, counted from one.
pub open spec fn example_lines(examples: Seq<Seq<char>>) -> Seq<Seq<char>> {
    Seq::new(examples.len(), |i: int| "~~"@ + decimal((i + 1) as nat) + ")~~ "@ + examples[i])
}

/// The examples section, or nothing where there is no example.
pub open spec fn example_section(p: HelpPageView) -> Seq<char> {
    if p.examples.len() == 0 {
        Seq::empty()
    } else {
        "**Examples:**\n"@ + join_with(example_lines(p.examples), "\n"@) + "\n\n"@
    }
}

/// The notes as bullets.
pub open spec fn note_lines(notes: Seq<Seq<char>>) -> Seq<Seq<char>> {
    Seq::new(notes.len(), |i: int| "- "@ + notes[i])
}

/// The notes section, or nothing where there is no note.
pub open spec fn note_section(p: HelpPageView) -> Seq<char> {
    if p.notes.len() == 0 {
        Seq::empty()
    } else {
        "**Notes:**\n"@ + join_with(note_lines(p.notes), "\n"@)
    }
}

/// The whole document of a page, for a program run under `exec_name`.
pub open spec fn document(p: HelpPageView, exec_name: Seq<char>) -> Seq<char> {
    header_section(p) + usage_section(p, exec_name) + subcommand_section(p) + positional_section(p)
        + option_section(p) + example_section(p) + note_section(p)
}

/// Each optional section is there exactly when its list holds something:
/// an empty list leaves no heading and no empty table behind, and a list
/// that is not empty always gives a section.
pub proof fn law_sections_follow_their_lists(p: HelpPageView)
    ensures
        subcommand_section(p).len() == 0 <==> p.subcommands.len() == 0,
        positional_section(p).len() == 0 <==> p.positionals.len() == 0,
        option_section(p).len() == 0 <==> p.options.len() == 0,
        example_section(p).len() == 0 <==> p.examples.len() == 0,
        note_section(p).len() == 0 <==> p.notes.len() == 0,
{
    reveal_strlit("**Subcommands:**\n");
    reveal_strlit("**Arguments:**\n");
    reveal_strlit("**Options:**\n");
    reveal_strlit("**Examples:**\n");
    reveal_strlit("**Notes:**\n");
}

/// The title always stands: every document starts with the title line,
/// which is never empty.
pub proof fn law_document_starts_with_title(p: HelpPageView, exec_name: Seq<char>)
    ensures
        title_line(p).is_prefix_of(document(p, exec_name)),
        title_line(p).len() > 0,
{
    reveal_strlit("# ");
    let title = title_line(p);
    let after = paragraph(p.summary) + paragraph(p.description) + usage_section(p, exec_name)
        + subcommand_section(p) + positional_section(p) + option_section(p) + example_section(p)
        + note_section(p);
    assert(document(p, exec_name) =~= title + after);
    assert((title + after).subrange(0, title.len() as int) =~= title);
}

/// The usage always stands: every document holds the usage section right
/// after the header, and that section is never empty.
pub proof fn law_usage_follows_header(p: HelpPageView, exec_name: Seq<char>)
    ensures
        (header_section(p) + usage_section(p, exec_name)).is_prefix_of(document(p, exec_name)),
        usage_section(p, exec_name).len() > 0,
{
    reveal_strlit("**Usage:** `");
    let head = header_section(p) + usage_section(p, exec_name);
    let rest = subcommand_section(p) + positional_section(p) + option_section(p) + example_section(
        p,
    ) + note_section(p);
    assert(document(p, exec_name) =~= head + rest);
    assert((head + rest).subrange(0, head.len() as int) =~= head);
}

/// A text that starts and ends with something other than white space is
/// its own trimmed form.
pub proof fn lemma_trimmed_is_fixed(body: Seq<char>)
    requires
        body.len() > 0,
        !is_white_space(body.first()),
        !is_white_space(body.last()),
    ensures
        trimmed(body) == body,
{
}

/// A usage line made of the label, one space and a text that neither
/// starts nor ends with white space is shown as that text: as it stands
/// where it starts with the executable's name, and with the name and a
/// space in front where it does not.
pub proof fn law_labelled_usage(body: Seq<char>, exec_name: Seq<char>)
    requires
        body.len() > 0,
        !is_white_space(body.first()),
        !is_white_space(body.last()),
    ensures
        usage_line(usage_label() + " "@ + body, exec_name) == if exec_name.is_prefix_of(body) {
            body
        } else {
            exec_name + " "@ + body
        },
{
    reveal_strlit("Usage:");
    reveal_strlit(" ");
    let label = usage_label();
    let usage = label + " "@ + body;
    assert(usage.subrange(0, label.len() as int) =~= label);
    let spaced = " "@ + body;
    assert(usage.subrange(label.len() as int, usage.len() as int) =~= spaced);
    assert(without_label(usage) == spaced);
    assert(spaced[0] == ' ');
    assert(is_white_space(' '));
    assert(spaced.drop_first() =~= body);
    assert(trim_start(spaced) == trim_start(body));
    lemma_trimmed_is_fixed(body);
}

fn push_paragraph(md: &mut String, text: &Option<String>)
    ensures
        final(md)@ == old(md)@ + paragraph(crate::text::opt_text(*text)),
{
    if let Some(t) = text {
        if !t.as_str().is_empty() {
            md.append(t.as_str());
            md.append("\n");
            md.append("\n");
            assert(md@ =~= old(md)@ + (t@ + "\n"@ + "\n"@));
            return ;
        }
    }
    assert(md@ =~= old(md)@ + Seq::<char>::empty());
}

/// Appends the header of `page` to `md`.
pub fn render_header(md: &mut String, page: &HelpPage)
    ensures
        final(md)@ == old(md)@ + header_section(page@),
{
    md.append("# ");
    md.append(page.app_name.as_str());
    if !page.path.as_str().is_empty() {
        md.append(" ");
        md.append(page.path.as_str());
    } else if let Some(version) = &page.version {
        md.append(" v");
        md.append(version.as_str());
    }
    md.append("\n");
    assert(md@ =~= old(md)@ + title_line(page@));
    push_paragraph(md, &page.summary);
    push_paragraph(md, &page.description);
    assert(md@ =~= old(md)@ + header_section(page@));
}

/// Appends the usage section of `page` to `md`, anchored to `exec_name`.
pub fn render_usage(md: &mut String, page: &HelpPage, exec_name: &str)
    ensures
        final(md)@ == old(md)@ + usage_section(page@, exec_name@),
{
    let chars = chars_of(page.usage.as_str());
    let label = chars_of("Usage:");
    assert(chars@.subrange(0, chars@.len() as int) =~= chars@);
    let from = if has_prefix_at(&chars, 0, chars.len(), &label) {
        label.len()
    } else {
        assert(chars@.subrange(0, chars@.len() as int) =~= without_label(chars@));
        0
    };
    let (lo, hi) = trim_bounds(&chars, from);
    let bare = string_of(&chars, lo, hi);
    let name = chars_of(exec_name);
    assert(bare@ == trimmed(without_label(page.usage@)));
    md.append("**Usage:** `");
    if !has_prefix_at(&chars, lo, hi, &name) {
        md.append(exec_name);
        md.append(" ");
    }
    md.append(bare.as_str());
    md.append("`\n");
    assert(md@ =~= old(md)@ + usage_section(page@, exec_name@));
}

fn subcommand_row_text(sc: &HelpSubcommand) -> (row: String)
    ensures
        row@ == subcommand_row(sc@),
{
    let mut row = String::new();
    row.append("| ");
    row.append(sc.name.as_str());
    row.append(" | ");
    if let Some(summary) = &sc.summary {
        row.append(summary.as_str());
    }
    row.append(" |\n");
    assert(row@ =~= subcommand_row(sc@));
    row
}

/// Appends the subcommand table of `page` to `md`.
pub fn render_subcommands(md: &mut String, page: &HelpPage)
    ensures
        final(md)@ == old(md)@ + subcommand_section(page@),
{
    if page.subcommands.len() == 0 {
        assert(md@ =~= old(md)@ + Seq::<char>::empty());
        return ;
    }
    let ghost rows = subcommand_rows(page@.subcommands);
    let ghost head = old(md)@ + "**Subcommands:**\n"@ + "|:-|:-\n"@ + "| command | description |\n"@
        + "|:-|:-\n"@;
    md.append("**Subcommands:**\n");
    md.append("|:-|:-\n");
    md.append("| command | description |\n");
    md.append("|:-|:-\n");
    let mut i: usize = 0;
    while i < page.subcommands.len()
        invariant
            i <= page.subcommands.len(),
            rows == subcommand_rows(page@.subcommands),
            md@ == head + concat_all(rows.take(i as int)),
        decreases page.subcommands.len() - i,
    {
        let row = subcommand_row_text(&page.subcommands[i]);
        md.append(row.as_str());
        proof {
            lemma_concat_next(rows, i as int);
            assert(md@ =~= head + concat_all(rows.take(i + 1)));
        }
        i = i + 1;
    }
    assert(rows.take(rows.len() as int) =~= rows);
    md.append("|-\n");
    md.append("\n");
    assert(md@ =~= old(md)@ + subcommand_section(page@));
}

fn positional_row_text(arg: &HelpArg) -> (row: String)
    ensures
        row@ == positional_row(arg@),
{
    let mut row = String::new();
    row.append("* `");
    row.append(arg.name.as_str());
    row.append("`: ");
    if let Some(description) = &arg.description {
        row.append(description.as_str());
    }
    row.append(" *(");
    if arg.required {
        row.append("~~required~~");
    } else {
        row.append("~~optional~~");
    }
    if arg.multiple {
        row.append(", ~~multiple~~");
    }
    row.append(")*\n");
    assert(row@ =~= positional_row(arg@));
    row
}

/// Appends the argument list of `page` to `md`.
pub fn render_positionals(md: &mut String, page: &HelpPage)
    ensures
        final(md)@ == old(md)@ + positional_section(page@),
{
    if page.positionals.len() == 0 {
        assert(md@ =~= old(md)@ + Seq::<char>::empty());
        return ;
    }
    let ghost rows = positional_rows(page@.positionals);
    let ghost head = old(md)@ + "**Arguments:**\n"@;
    md.append("**Arguments:**\n");
    let mut i: usize = 0;
    while i < page.positionals.len()
        invariant
            i <= page.positionals.len(),
            rows == positional_rows(page@.positionals),
            md@ == head + concat_all(rows.take(i as int)),
        decreases page.positionals.len() - i,
    {
        let row = positional_row_text(&page.positionals[i]);
        md.append(row.as_str());
        proof {
            lemma_concat_next(rows, i as int);
            assert(md@ =~= head + concat_all(rows.take(i + 1)));
        }
        i = i + 1;
    }
    assert(rows.take(rows.len() as int) =~= rows);
    md.append("\n");
    assert(md@ =~= old(md)@ + positional_section(page@));
}

fn push_value_hint(cell: &mut String, value: &Option<String>)
    ensures
        final(cell)@ == old(cell)@ + value_hint(crate::text::opt_text(*value)),
{
    match value {
        Some(v) => {
            let lower = to_ascii_lower(v.as_str());
            cell.append(" ~~<");
            cell.append(lower.as_str());
            cell.append(">~~");
            assert(cell@ =~= old(cell)@ + (" ~~<"@ + ascii_lower(v@) + ">~~"@));
        },
        None => {
            assert(cell@ =~= old(cell)@ + Seq::<char>::empty());
        },
    }
}

fn option_row_text(opt: &HelpOption) -> (row: String)
    ensures
        row@ == option_row(opt@),
{
    let mut row = String::new();
    row.append("| ");
    let ghost before_short = row@;
    if let Some(short) = opt.short {
        row.append("-");
        push_char(&mut row, short);
        push_value_hint(&mut row, &opt.value);
    }
    assert(row@ =~= before_short + short_cell(opt@));
    row.append(" | ");
    let ghost before_long = row@;
    if let Some(long) = &opt.long {
        row.append("--");
        row.append(long.as_str());
    }
    push_value_hint(&mut row, &opt.value);
    assert(row@ =~= before_long + long_cell(opt@));
    row.append(" | ");
    let ghost before_description = row@;
    row.append(opt.description.as_str());
    if !opt.default.as_str().is_empty() {
        row.append(" *(defaults to ");
        row.append(opt.default.as_str());
        row.append(")*");
    }
    assert(row@ =~= before_description + description_cell(opt@));
    row.append("\n");
    assert(row@ =~= option_row(opt@));
    row
}

/// Appends the option table of `page` to `md`.
pub fn render_options(md: &mut String, page: &HelpPage)
    ensures
        final(md)@ == old(md)@ + option_section(page@),
{
    if page.options.len() == 0 {
        assert(md@ =~= old(md)@ + Seq::<char>::empty());
        return ;
    }
    let ghost rows = option_rows(page@.options);
    let ghost head = old(md)@ + "**Options:**\n"@ + "|:-:|:-:|-\n"@ + "|short|long|description|\n"@
        + "|:-:|:-|-\n"@;
    md.append("**Options:**\n");
    md.append("|:-:|:-:|-\n");
    md.append("|short|long|description|\n");
    md.append("|:-:|:-|-\n");
    let mut i: usize = 0;
    while i < page.options.len()
        invariant
            i <= page.options.len(),
            rows == option_rows(page@.options),
            md@ == head + concat_all(rows.take(i as int)),
        decreases page.options.len() - i,
    {
        let row = option_row_text(&page.options[i]);
        md.append(row.as_str());
        proof {
            lemma_concat_next(rows, i as int);
            assert(md@ =~= head + concat_all(rows.take(i + 1)));
        }
        i = i + 1;
    }
    assert(rows.take(rows.len() as int) =~= rows);
    md.append("|-\n");
    md.append("\n");
    assert(md@ =~= old(md)@ + option_section(page@));
}

/// Appends the numbered examples of `page` to `md`.
pub fn render_examples(md: &mut String, page: &HelpPage)
    ensures
        final(md)@ == old(md)@ + example_section(page@),
{
    if page.examples.len() == 0 {
        assert(md@ =~= old(md)@ + Seq::<char>::empty());
        return ;
    }
    let ghost lines = example_lines(page@.examples);
    let ghost head = old(md)@ + "**Examples:**\n"@;
    md.append("**Examples:**\n");
    let mut i: usize = 0;
    while i < page.examples.len()
        invariant
            i <= page.examples.len(),
            lines == example_lines(page@.examples),
            md@ == head + join_with(lines.take(i as int), "\n"@),
        decreases page.examples.len() - i,
    {
        let ghost before = md@;
        if i > 0 {
            md.append("\n");
        }
        md.append("~~");
        push_decimal(md, i + 1);
        md.append(")~~ ");
        md.append(page.examples[i].as_str());
        proof {
            lemma_join_next(lines, "\n"@, i as int);
            assert(lines[i as int] == "~~"@ + decimal((i + 1) as nat) + ")~~ "@
                + page@.examples[i as int]);
            assert(md@ =~= head + join_with(lines.take(i + 1), "\n"@));
        }
        i = i + 1;
    }
    assert(lines.take(lines.len() as int) =~= lines);
    md.append("\n\n");
    assert(md@ =~= old(md)@ + example_section(page@));
}

/// Appends the notes of `page` to `md`, one bullet each.
pub fn render_notes(md: &mut String, page: &HelpPage)
    ensures
        final(md)@ == old(md)@ + note_section(page@),
{
    if page.notes.len() == 0 {
        assert(md@ =~= old(md)@ + Seq::<char>::empty());
        return ;
    }
    let ghost lines = note_lines(page@.notes);
    let ghost head = old(md)@ + "**Notes:**\n"@;
    md.append("**Notes:**\n");
    let mut i: usize = 0;
    while i < page.notes.len()
        invariant
            i <= page.notes.len(),
            lines == note_lines(page@.notes),
            md@ == head + join_with(lines.take(i as int), "\n"@),
        decreases page.notes.len() - i,
    {
        if i > 0 {
            md.append("\n");
        }
        md.append("- ");
        md.append(page.notes[i].as_str());
        proof {
            lemma_join_next(lines, "\n"@, i as int);
            assert(lines[i as int] == "- "@ + page@.notes[i as int]);
            assert(md@ =~= head + join_with(lines.take(i + 1), "\n"@));
        }
        i = i + 1;
    }
    assert(lines.take(lines.len() as int) =~= lines);
    assert(md@ =~= old(md)@ + note_section(page@));
}

/// Composes the markdown document of `page`, for a program whose
/// executable is called `exec_name`.
pub fn compose(page: &HelpPage, exec_name: &str) -> (md: String)
    ensures
        md@ == document(page@, exec_name@),
{
    let mut md = String::new();
    render_header(&mut md, page);
    render_usage(&mut md, page, exec_name);
    render_subcommands(&mut md, page);
    render_positionals(&mut md, page);
    render_options(&mut md, page);
    render_examples(&mut md, page);
    render_notes(&mut md, page);
    assert(md@ =~= document(page@, exec_name@));
    md
}

} // verus!
