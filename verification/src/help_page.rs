//! A typed snapshot of one command's help, ready to be composed into markdown.
use vstd::prelude::*;

use crate::command_tree::{ArgSpec, CommandNode, ValueRange};
use crate::doc_registry::{CommandDoc, CommandDocView};
use crate::text::{join_texts, join_with, opt_text, text_or_empty, texts};

verus! {

/// Everything needed to print help for one command path.
#[derive(Debug, Clone)]
pub struct HelpPage {
    /// Name of the application.
    pub app_name: String,
    /// Application version.
    pub version: Option<String>,
    /// Full command path; empty for the program itself.
    pub path: String,
    /// One-line summary.
    pub summary: Option<String>,
    /// Longer description.
    pub description: Option<String>,
    /// Usage line.
    pub usage: String,
    /// Positional arguments.
    pub positionals: Vec<HelpArg>,
    /// Flags and options.
    pub options: Vec<HelpOption>,
    /// Child commands.
    pub subcommands: Vec<HelpSubcommand>,
    /// Sample invocations.
    pub examples: Vec<String>,
    /// Tips and caveats.
    pub notes: Vec<String>,
}

/// A flag or option, with its value placeholder and defaults.
#[derive(Debug, Clone)]
pub struct HelpOption {
    pub short: Option<char>,
    pub long: Option<String>,
    pub value: Option<String>,
    pub description: String,
    pub default: String,
}

/// A positional argument.
#[derive(Debug, Clone)]
pub struct HelpArg {
    pub name: String,
    pub description: Option<String>,
    pub required: bool,
    pub multiple: bool,
}

/// A child command, for the overview of a command that has children.
#[derive(Debug, Clone)]
pub struct HelpSubcommand {
    pub name: String,
    pub summary: Option<String>,
}

/// The mathematical content of a [`HelpOption`].
pub struct HelpOptionView {
    pub short: Option<char>,
    pub long: Option<Seq<char>>,
    pub value: Option<Seq<char>>,
    pub description: Seq<char>,
    pub default: Seq<char>,
}

/// The mathematical content of a [`HelpArg`].
pub struct HelpArgView {
    pub name: Seq<char>,
    pub description: Option<Seq<char>>,
    pub required: bool,
    pub multiple: bool,
}

/// The mathematical content of a [`HelpSubcommand`].
pub struct HelpSubcommandView {
    pub name: Seq<char>,
    pub summary: Option<Seq<char>>,
}

/// The mathematical content of a [`HelpPage`].
pub struct HelpPageView {
    pub app_name: Seq<char>,
    pub version: Option<Seq<char>>,
    pub path: Seq<char>,
    pub summary: Option<Seq<char>>,
    pub description: Option<Seq<char>>,
    pub usage: Seq<char>,
    pub positionals: Seq<HelpArgView>,
    pub options: Seq<HelpOptionView>,
    pub subcommands: Seq<HelpSubcommandView>,
    pub examples: Seq<Seq<char>>,
    pub notes: Seq<Seq<char>>,
}

impl View for HelpOption {
    type V = HelpOptionView;

    open spec fn view(&self) -> HelpOptionView {
        HelpOptionView {
            short: self.short,
            long: opt_text(self.long),
            value: opt_text(self.value),
            description: self.description@,
            default: self.default@,
        }
    }
}

impl View for HelpArg {
    type V = HelpArgView;

    open spec fn view(&self) -> HelpArgView {
        HelpArgView {
            name: self.name@,
            description: opt_text(self.description),
            required: self.required,
            multiple: self.multiple,
        }
    }
}

impl View for HelpSubcommand {
    type V = HelpSubcommandView;

    open spec fn view(&self) -> HelpSubcommandView {
        HelpSubcommandView { name: self.name@, summary: opt_text(self.summary) }
    }
}

/// The contents of a list of positional arguments, in order.
pub open spec fn arg_views(v: Seq<HelpArg>) -> Seq<HelpArgView> {
    Seq::new(v.len(), |i: int| v[i]@)
}

/// The contents of a list of options, in order.
pub open spec fn option_views(v: Seq<HelpOption>) -> Seq<HelpOptionView> {
    Seq::new(v.len(), |i: int| v[i]@)
}

/// The contents of a list of child commands, in order.
pub open spec fn subcommand_views(v: Seq<HelpSubcommand>) -> Seq<HelpSubcommandView> {
    Seq::new(v.len(), |i: int| v[i]@)
}

impl View for HelpPage {
    type V = HelpPageView;

    open spec fn view(&self) -> HelpPageView {
        HelpPageView {
            app_name: self.app_name@,
            version: opt_text(self.version),
            path: self.path@,
            summary: opt_text(self.summary),
            description: opt_text(self.description),
            usage: self.usage@,
            positionals: arg_views(self.positionals@),
            options: option_views(self.options@),
            subcommands: subcommand_views(self.subcommands@),
            examples: texts(self.examples@),
            notes: texts(self.notes@),
        }
    }
}

/// The separator between several default values of one option.
pub open spec fn default_separator() -> Seq<char> {
    ", "@
}

/// An argument whose least number of values is known to be zero.
pub open spec fn may_be_left_out(range: Option<ValueRange>) -> bool {
    match range {
        Some(r) => r.min_values == 0,
        None => false,
    }
}

/// An argument whose least and greatest number of values are known and
/// differ, or that is known to need more than one value.
pub open spec fn takes_several(range: Option<ValueRange>) -> bool {
    match range {
        Some(r) => r.min_values != r.max_values || 1 < r.min_values,
        None => false,
    }
}

/// How a positional argument of the tree is shown. It counts as required
/// when the tree marks it so or when its least number of values is zero,
/// and as multiple when its least and greatest number of values differ or
/// its least number is more than one. Where the tree gives no numbers, only
/// the tree's mark counts and the argument is not multiple.
pub open spec fn positional_of(arg: ArgSpec) -> HelpArgView {
    HelpArgView {
        name: arg.id@,
        description: opt_text(arg.help),
        required: arg.required || may_be_left_out(arg.num_args),
        multiple: takes_several(arg.num_args),
    }
}

/// How an option of the tree is shown. The value placeholder is its first
/// value name, and only where the option consumes a value; the default text
/// joins the declared defaults and is empty where there are none.
pub open spec fn option_of(arg: ArgSpec) -> HelpOptionView {
    HelpOptionView {
        short: arg.short,
        long: opt_text(arg.long),
        value: if arg.takes_values && arg.value_names@.len() > 0 {
            Some(arg.value_names@[0]@)
        } else {
            None
        },
        description: text_or_empty(arg.help),
        default: join_with(texts(arg.default_values@), default_separator()),
    }
}

/// How a child command is shown in its parent's overview.
pub open spec fn subcommand_of(node: CommandNode) -> HelpSubcommandView {
    HelpSubcommandView { name: node.name@, summary: opt_text(node.about) }
}

/// The test that picks the positional arguments.
pub open spec fn given_by_position() -> spec_fn(ArgSpec) -> bool {
    |a: ArgSpec| a.positional
}

/// The test that picks the options.
pub open spec fn given_by_flag() -> spec_fn(ArgSpec) -> bool {
    |a: ArgSpec| !a.positional
}

/// The positional arguments among `args`, in declaration order.
pub open spec fn positionals_of(args: Seq<ArgSpec>) -> Seq<HelpArgView> {
    args.filter(given_by_position()).map_values(|a: ArgSpec| positional_of(a))
}

/// The options among `args`, in declaration order.
pub open spec fn options_of(args: Seq<ArgSpec>) -> Seq<HelpOptionView> {
    args.filter(given_by_flag()).map_values(|a: ArgSpec| option_of(a))
}

/// The page that a command node gives by itself: texts, arguments and
/// children from the tree, no examples and no notes.
pub open spec fn page_of(
    app_name: Seq<char>,
    version: Option<Seq<char>>,
    path: Seq<char>,
    node: CommandNode,
) -> HelpPageView {
    HelpPageView {
        app_name,
        version,
        path,
        summary: opt_text(node.about),
        description: opt_text(node.long_about),
        usage: node.usage@,
        positionals: positionals_of(node.args@),
        options: options_of(node.args@),
        subcommands: node.subcommands@.map_values(|c: CommandNode| subcommand_of(c)),
        examples: Seq::empty(),
        notes: Seq::empty(),
    }
}

/// A page with an annotation laid over it. The annotation's description
/// replaces the page's only where it is present and not empty; its examples
/// and notes replace the page's whole, also where they are empty. Nothing
/// else changes, and without an annotation nothing changes at all.
pub open spec fn annotated(page: HelpPageView, doc: Option<CommandDocView>) -> HelpPageView {
    match doc {
        None => page,
        Some(d) => HelpPageView {
            description: match d.description {
                Some(t) => if t.len() > 0 {
                    Some(t)
                } else {
                    page.description
                },
                None => page.description,
            },
            examples: d.examples,
            notes: d.notes,
            ..page
        },
    }
}

/// The content of an optional annotation.
pub open spec fn opt_doc_view(doc: Option<&CommandDoc>) -> Option<CommandDocView> {
    match doc {
        Some(d) => Some(d@),
        None => None,
    }
}

/// The whole builder: the page of a node with an optional annotation on it.
pub open spec fn built_page(
    app_name: Seq<char>,
    version: Option<Seq<char>>,
    path: Seq<char>,
    node: CommandNode,
    doc: Option<CommandDocView>,
) -> HelpPageView {
    annotated(page_of(app_name, version, path, node), doc)
}

/// Building is repeatable: two pages built from the same name, version,
/// path, node and annotation hold the same content.
pub proof fn law_build_is_repeatable(
    first: HelpPage,
    second: HelpPage,
    app_name: Seq<char>,
    version: Option<Seq<char>>,
    path: Seq<char>,
    node: CommandNode,
    doc: Option<CommandDocView>,
)
    requires
        first@ == built_page(app_name, version, path, node, doc),
        second@ == built_page(app_name, version, path, node, doc),
    ensures
        first@ == second@,
{
}

/// An annotation replaces examples and notes whole: whatever the page held,
/// it then holds the annotation's lists and nothing else, also where they
/// are empty.
pub proof fn law_annotation_replaces_lists(page: HelpPageView, doc: CommandDocView)
    ensures
        annotated(page, Some(doc)).examples == doc.examples,
        annotated(page, Some(doc)).notes == doc.notes,
{
}

/// An annotation without a description, or with an empty one, leaves the
/// page's description as it was; one with a description that is not empty
/// puts it in its place.
pub proof fn law_description_overrides_only_when_present(page: HelpPageView, doc: CommandDocView)
    ensures
        (doc.description is None || doc.description->0.len() == 0) ==> annotated(
            page,
            Some(doc),
        ).description == page.description,
        (doc.description is Some && doc.description->0.len() > 0) ==> annotated(
            page,
            Some(doc),
        ).description == doc.description,
{
}

/// An annotation never touches what comes from the tree alone: name,
/// version, path, summary, usage, arguments, options and children.
pub proof fn law_annotation_keeps_tree_fields(page: HelpPageView, doc: Option<CommandDocView>)
    ensures
        annotated(page, doc).app_name == page.app_name,
        annotated(page, doc).version == page.version,
        annotated(page, doc).path == page.path,
        annotated(page, doc).summary == page.summary,
        annotated(page, doc).usage == page.usage,
        annotated(page, doc).positionals == page.positionals,
        annotated(page, doc).options == page.options,
        annotated(page, doc).subcommands == page.subcommands,
{
}

/// Filtering one element more either appends that element or changes nothing.
pub proof fn lemma_filter_next<A>(s: Seq<A>, i: int, pred: spec_fn(A) -> bool)
    requires
        0 <= i < s.len(),
    ensures
        s.take(i + 1).filter(pred) == if pred(s[i]) {
            s.take(i).filter(pred).push(s[i])
        } else {
            s.take(i).filter(pred)
        },
{
    reveal(Seq::filter);
    assert(s.take(i + 1).drop_last() =~= s.take(i));
}

fn copy_opt(text: &Option<String>) -> (copy: Option<String>)
    ensures
        opt_text(copy) == opt_text(*text),
{
    match text {
        Some(t) => Some(t.clone()),
        None => None,
    }
}

fn copy_texts(list: &Vec<String>) -> (copy: Vec<String>)
    ensures
        texts(copy@) == texts(list@),
{
    let mut copy: Vec<String> = Vec::new();
    let mut i: usize = 0;
    while i < list.len()
        invariant
            i <= list.len(),
            copy@.len() == i,
            forall|j: int| 0 <= j < i ==> copy@[j]@ == list@[j]@,
        decreases list.len() - i,
    {
        copy.push(list[i].clone());
        i = i + 1;
    }
    assert(texts(copy@) =~= texts(list@));
    copy
}

fn positional_from(arg: &ArgSpec) -> (shown: HelpArg)
    ensures
        shown@ == positional_of(*arg),
{
    let (may_be_left_out, takes_several) = match arg.num_args {
        Some(r) => (r.min_values == 0, r.min_values != r.max_values || 1 < r.min_values),
        None => (false, false),
    };
    HelpArg {
        name: arg.id.clone(),
        description: copy_opt(&arg.help),
        required: arg.required || may_be_left_out,
        multiple: takes_several,
    }
}

fn option_from(arg: &ArgSpec) -> (shown: HelpOption)
    ensures
        shown@ == option_of(*arg),
{
    let value = if arg.takes_values && arg.value_names.len() > 0 {
        Some(arg.value_names[0].clone())
    } else {
        None
    };
    let description = match &arg.help {
        Some(t) => t.clone(),
        None => String::new(),
    };
    HelpOption {
        short: arg.short,
        long: copy_opt(&arg.long),
        value,
        description,
        default: join_texts(arg.default_values.as_slice(), ", "),
    }
}

impl HelpPage {
    /// Builds a page from a node of the command tree.
    pub fn from_clap(app_name: &str, version: Option<&str>, path: &str, cmd: &CommandNode) -> (page:
        Self)
        ensures
            page@ == page_of(
                app_name@,
                match version {
                    Some(v) => Some(v@),
                    None => None,
                },
                path@,
                *cmd,
            ),
    {
        let mut positionals: Vec<HelpArg> = Vec::new();
        let mut options: Vec<HelpOption> = Vec::new();
        let mut i: usize = 0;
        while i < cmd.args.len()
            invariant
                i <= cmd.args.len(),
                arg_views(positionals@) == positionals_of(cmd.args@.take(i as int)),
                option_views(options@) == options_of(cmd.args@.take(i as int)),
            decreases cmd.args.len() - i,
        {
            let arg = &cmd.args[i];
            let ghost shown_before = arg_views(positionals@);
            let ghost options_before = option_views(options@);
            let ghost kept = cmd.args@.take(i as int).filter(given_by_position());
            let ghost flagged = cmd.args@.take(i as int).filter(given_by_flag());
            proof {
                lemma_filter_next(cmd.args@, i as int, given_by_position());
                lemma_filter_next(cmd.args@, i as int, given_by_flag());
            }
            if arg.positional {
                positionals.push(positional_from(arg));
                proof {
                    let shown = arg_views(positionals@);
                    let wanted = kept.push(*arg).map_values(|a: ArgSpec| positional_of(a));
                    assert(shown_before.len() == kept.len());
                    assert forall|j: int| 0 <= j < shown.len() implies shown[j] == wanted[j] by {
                        if j < shown_before.len() {
                            assert(shown[j] == shown_before[j]);
                        }
                    }
                    assert(shown =~= wanted);
                }
            } else {
                options.push(option_from(arg));
                proof {
                    let shown = option_views(options@);
                    let wanted = flagged.push(*arg).map_values(|a: ArgSpec| option_of(a));
                    assert(options_before.len() == flagged.len());
                    assert forall|j: int| 0 <= j < shown.len() implies shown[j] == wanted[j] by {
                        if j < options_before.len() {
                            assert(shown[j] == options_before[j]);
                        }
                    }
                    assert(shown =~= wanted);
                }
            }
            i = i + 1;
        }
        assert(cmd.args@.take(cmd.args.len() as int) =~= cmd.args@);
        let mut subcommands: Vec<HelpSubcommand> = Vec::new();
        let mut k: usize = 0;
        while k < cmd.subcommands.len()
            invariant
                k <= cmd.subcommands.len(),
                subcommands@.len() == k,
                forall|j: int| 0 <= j < k ==> subcommands@[j]@ == subcommand_of(cmd.subcommands@[j]),
            decreases cmd.subcommands.len() - k,
        {
            let child = &cmd.subcommands[k];
            subcommands.push(
                HelpSubcommand { name: child.name.clone(), summary: copy_opt(&child.about) },
            );
            k = k + 1;
        }
        assert(subcommand_views(subcommands@) =~= cmd.subcommands@.map_values(
            |c: CommandNode| subcommand_of(c),
        ));
        let version = match version {
            Some(v) => Some(v.to_owned()),
            None => None,
        };
        let page = HelpPage {
            app_name: app_name.to_owned(),
            version,
            path: path.to_owned(),
            summary: copy_opt(&cmd.about),
            description: copy_opt(&cmd.long_about),
            usage: cmd.usage.clone(),
            positionals,
            options,
            subcommands,
            examples: Vec::new(),
            notes: Vec::new(),
        };
        assert(page@.examples =~= Seq::empty());
        assert(page@.notes =~= Seq::empty());
        page
    }

    /// Lays an annotation over the page; see [`annotated`].
    pub fn with_docs(self, doc: Option<&CommandDoc>) -> (page: Self)
        ensures
            page@ == annotated(self@, opt_doc_view(doc)),
    {
        let mut page = self;
        if let Some(doc) = doc {
            match &doc.description {
                Some(t) => {
                    if !t.as_str().is_empty() {
                        page.description = Some(t.clone());
                    }
                },
                None => {},
            }
            page.examples = copy_texts(&doc.examples);
            page.notes = copy_texts(&doc.notes);
        }
        page
    }
}

} // verus!
