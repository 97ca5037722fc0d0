//! Finding what a help request asks for.
use vstd::prelude::*;

use crate::command_tree::CommandNode;
use crate::doc_registry::{CommandDoc, CommandDocView, DocRegistry};
use crate::help_page::{built_page, HelpPage};
use crate::renderer::{compose, document};
use crate::text::{join_with, same_text, texts};

verus! {

/// The arguments of a help command: the topic, segment by segment.
#[derive(Debug, Clone)]
pub struct HelpArgs {
    /// The command to print information about.
    pub topic: Vec<String>,
}

/// Why a help request could not be served.
#[derive(Debug, Clone, Copy, PartialEq, Eq, Structural)]
pub enum HelpError {
    /// A segment names no child of the command reached so far.
    UnknownTopic,
}

impl HelpError {
    /// The text of the error, as shown to the user.
    pub open spec fn message_text(self) -> Seq<char> {
        match self {
            HelpError::UnknownTopic => "Unknown help topic"@,
        }
    }

    /// The text of the error, as shown to the user.
    pub fn message(&self) -> (text: String)
        ensures
            text@ == self.message_text(),
    {
        match self {
            HelpError::UnknownTopic => "Unknown help topic".to_owned(),
        }
    }
}

/// What a help request asks for: a command, a guide, or the program itself.
pub enum HelpTarget<'a> {
    Command { path: String, cmd: &'a CommandNode },
    Guide { path: String },
    Program { cmd: &'a CommandNode },
}

/// The mathematical content of a [`HelpTarget`].
pub enum Resolved {
    Command { path: Seq<char>, node: CommandNode },
    Guide { path: Seq<char> },
    Program { node: CommandNode },
}

impl<'a> View for HelpTarget<'a> {
    type V = Resolved;

    open spec fn view(&self) -> Resolved {
        match *self {
            HelpTarget::Command { path, cmd } => Resolved::Command { path: path@, node: *cmd },
            HelpTarget::Guide { path } => Resolved::Guide { path: path@ },
            HelpTarget::Program { cmd } => Resolved::Program { node: *cmd },
        }
    }
}

/// The reserved segment that asks for a guide instead of naming a command.
pub open spec fn guide_marker() -> Seq<char> {
    "guide"@
}

/// The separator between the segments of a path.
pub open spec fn path_separator() -> Seq<char> {
    "."@
}

/// The dot-joined path of a sequence of segments.
pub open spec fn path_of(segments: Seq<Seq<char>>) -> Seq<char> {
    join_with(segments, path_separator())
}

/// No segment is the guide marker.
pub open spec fn marker_free(segments: Seq<Seq<char>>) -> bool {
    forall|j: int| 0 <= j < segments.len() ==> segments[j] != guide_marker()
}

/// The position of the first guide marker, or the length where there is none.
pub open spec fn first_marker(segments: Seq<Seq<char>>) -> int
    decreases segments.len(),
{
    if segments.len() == 0 {
        0
    } else if segments[0] == guide_marker() {
        0
    } else {
        1 + first_marker(segments.drop_first())
    }
}

/// The node reached from `root` by following `segments` child by child, if
/// every segment names a child of the node before it.
pub open spec fn descend(root: CommandNode, segments: Seq<Seq<char>>) -> Option<CommandNode>
    decreases segments.len(),
{
    if segments.len() == 0 {
        Some(root)
    } else {
        match descend(root, segments.drop_last()) {
            Some(node) => node.child_named(segments.last()),
            None => None,
        }
    }
}

/// What a topic resolves to. The empty topic is the program. Otherwise the
/// segments before the first guide marker are followed from the root: where
/// one of them names no child the topic is unknown; where a marker ends the
/// walk the target is the guide of the path walked; else it is the command
/// that the whole topic names.
pub open spec fn resolve(root: CommandNode, topic: Seq<Seq<char>>) -> Result<Resolved, HelpError> {
    if topic.len() == 0 {
        Ok(Resolved::Program { node: root })
    } else {
        let walked = topic.take(first_marker(topic));
        match descend(root, walked) {
            None => Err(HelpError::UnknownTopic),
            Some(node) => if walked.len() < topic.len() {
                Ok(Resolved::Guide { path: path_of(walked) })
            } else {
                Ok(Resolved::Command { path: path_of(topic), node })
            },
        }
    }
}

/// The first marker lies within the topic, no segment before it is a
/// marker, and where it lies inside the topic a marker stands there.
pub proof fn lemma_first_marker(segments: Seq<Seq<char>>)
    ensures
        0 <= first_marker(segments) <= segments.len(),
        marker_free(segments.take(first_marker(segments))),
        first_marker(segments) < segments.len() ==> segments[first_marker(segments)]
            == guide_marker(),
    decreases segments.len(),
{
    if segments.len() != 0 && segments[0] != guide_marker() {
        let rest = segments.drop_first();
        lemma_first_marker(rest);
        let k = first_marker(rest);
        let walked = segments.take(k + 1);
        assert forall|j: int| 0 <= j < walked.len() implies walked[j] != guide_marker() by {
            if j > 0 {
                assert(rest.take(k)[j - 1] == segments[j]);
            }
        }
    }
}

/// A position with no marker before it, and with a marker at it unless it
/// is the end, is the first marker.
pub proof fn lemma_first_marker_is(segments: Seq<Seq<char>>, k: int)
    requires
        0 <= k <= segments.len(),
        marker_free(segments.take(k)),
        k < segments.len() ==> segments[k] == guide_marker(),
    ensures
        first_marker(segments) == k,
{
    lemma_first_marker(segments);
    let f = first_marker(segments);
    if f < k {
        assert(segments.take(k)[f] == segments[f]);
    } else if k < f {
        assert(segments.take(f)[k] == segments[k]);
    }
}

/// Once a walk has failed, no longer walk succeeds.
pub proof fn lemma_descend_stays_lost(root: CommandNode, segments: Seq<Seq<char>>, j: int)
    requires
        0 <= j <= segments.len(),
        descend(root, segments.take(j)) is None,
    ensures
        descend(root, segments) is None,
    decreases segments.len() - j,
{
    if j < segments.len() {
        assert(segments.take(j + 1).drop_last() =~= segments.take(j));
        lemma_descend_stays_lost(root, segments, j + 1);
    } else {
        assert(segments.take(j) =~= segments);
    }
}

/// A topic made of segments that name a chain of commands, then the guide
/// marker, then anything at all, resolves to the guide of the path that the
/// segments before the marker spell; what follows the marker is not read.
pub proof fn law_guide_marker_ends_walk(
    root: CommandNode,
    walked: Seq<Seq<char>>,
    rest: Seq<Seq<char>>,
)
    requires
        marker_free(walked),
        descend(root, walked) is Some,
    ensures
        resolve(root, walked.push(guide_marker()) + rest) == Ok::<Resolved, HelpError>(
            Resolved::Guide { path: path_of(walked) },
        ),
{
    let topic = walked.push(guide_marker()) + rest;
    let k = walked.len() as int;
    assert(topic.take(k) =~= walked);
    assert(topic[k] == guide_marker());
    lemma_first_marker_is(topic, k);
}

/// A topic that is not empty, holds no guide marker, and names a chain of
/// commands from the root resolves to the last command of the chain, under
/// the path that joins all its segments with dots.
pub proof fn law_command_path_is_whole_topic(root: CommandNode, topic: Seq<Seq<char>>)
    requires
        topic.len() > 0,
        marker_free(topic),
        descend(root, topic) is Some,
    ensures
        resolve(root, topic) == Ok::<Resolved, HelpError>(
            Resolved::Command { path: path_of(topic), node: descend(root, topic)->0 },
        ),
{
    assert(topic.take(topic.len() as int) =~= topic);
    lemma_first_marker_is(topic, topic.len() as int);
}

/// The empty topic is the program itself, on every tree.
pub proof fn law_empty_topic_is_program(root: CommandNode)
    ensures
        resolve(root, Seq::<Seq<char>>::empty()) == Ok::<Resolved, HelpError>(
            Resolved::Program { node: root },
        ),
{
}

/// Walks the command tree to find what the topic asks for.
///
/// The segment `guide` is reserved: `foo bar guide` asks for the guide of
/// `foo.bar`, not for a subcommand called `guide`, and whatever follows it is
/// not looked at.
pub fn resolve_help<'a>(root: &'a CommandNode, topic: &[String]) -> (target: Result<
    HelpTarget<'a>,
    HelpError,
>)
    ensures
        match target {
            Ok(t) => resolve(*root, texts(topic@)) == Ok::<Resolved, HelpError>(t@),
            Err(e) => resolve(*root, texts(topic@)) == Err::<Resolved, HelpError>(e),
        },
{
    let mut cmd = root;
    if topic.len() == 0 {
        return Ok(HelpTarget::Program { cmd });
    }
    let ghost segments = texts(topic@);
    let mut path = String::new();
    let mut i: usize = 0;
    while i < topic.len()
        invariant
            i <= topic.len(),
            segments == texts(topic@),
            marker_free(segments.take(i as int)),
            descend(*root, segments.take(i as int)) == Some(*cmd),
            path@ == path_of(segments.take(i as int)),
        decreases topic.len() - i,
    {
        let segment = topic[i].as_str();
        if same_text(segment, "guide") {
            proof {
                lemma_first_marker_is(segments, i as int);
            }
            return Ok(HelpTarget::Guide { path });
        }
        let ghost next = segments.take(i + 1);
        proof {
            assert(next.drop_last() =~= segments.take(i as int));
            assert(next.last() == segment@);
            assert forall|j: int| 0 <= j < next.len() implies next[j] != guide_marker() by {
                if j < i {
                    assert(segments.take(i as int)[j] == next[j]);
                }
            }
        }
        match cmd.find_subcommand(segment) {
            None => {
                proof {
                    lemma_first_marker(segments);
                    let k = first_marker(segments);
                    if k <= i {
                        assert(next[k] == segments[k]);
                    }
                    assert(segments.take(k).take(i + 1) =~= next);
                    lemma_descend_stays_lost(*root, segments.take(k), i + 1);
                }
                return Err(HelpError::UnknownTopic);
            },
            Some(child) => {
                cmd = child;
            },
        }
        if i > 0 {
            path.append(".");
        } else {
            assert(path@ =~= Seq::<char>::empty());
            assert(path@ + segment@ =~= segment@);
        }
        path.append(segment);
        i = i + 1;
    }
    proof {
        assert(segments.take(topic.len() as int) =~= segments);
        lemma_first_marker_is(segments, segments.len() as int);
    }
    Ok(HelpTarget::Command { path, cmd })
}

/// What a help request shows.
#[derive(Debug, Clone)]
pub enum HelpContent {
    /// The composed page of a command or of the program, and the name that
    /// the scrollable view shows for it.
    Page { title: String, markdown: String },
    /// A guide, as registered.
    Guide { markdown: String },
    /// No guide is registered under the path.
    GuideNotFound { path: String },
}

/// The mathematical content of a [`HelpContent`].
pub enum HelpContentView {
    Page { title: Seq<char>, markdown: Seq<char> },
    Guide { markdown: Seq<char> },
    GuideNotFound { path: Seq<char> },
}

impl View for HelpContent {
    type V = HelpContentView;

    open spec fn view(&self) -> HelpContentView {
        match *self {
            HelpContent::Page { title, markdown } => HelpContentView::Page {
                title: title@,
                markdown: markdown@,
            },
            HelpContent::Guide { markdown } => HelpContentView::Guide { markdown: markdown@ },
            HelpContent::GuideNotFound { path } => HelpContentView::GuideNotFound { path: path@ },
        }
    }
}

/// The annotation registered under a path, if any.
pub open spec fn doc_at(docs: DocRegistry, path: Seq<char>) -> Option<CommandDocView> {
    if docs.commands().contains_key(path) {
        Some(docs.commands()[path]@)
    } else {
        None
    }
}

/// What a resolved target shows. A command or the program shows its page,
/// built under the application's name and annotated from the store under
/// its path, which is empty for the program; the executable's name anchors
/// the usage line and nothing else. A guide shows the text registered under
/// its path, or is reported as not found.
pub open spec fn content_of(
    app_name: Seq<char>,
    exec_name: Seq<char>,
    version: Option<Seq<char>>,
    docs: DocRegistry,
    target: Resolved,
) -> HelpContentView {
    match target {
        Resolved::Command { path, node } => HelpContentView::Page {
            title: app_name,
            markdown: document(
                built_page(app_name, version, path, node, doc_at(docs, path)),
                exec_name,
            ),
        },
        Resolved::Program { node } => HelpContentView::Page {
            title: app_name,
            markdown: document(
                built_page(app_name, version, Seq::empty(), node, doc_at(docs, Seq::empty())),
                exec_name,
            ),
        },
        Resolved::Guide { path } => if docs.guides().contains_key(path) {
            HelpContentView::Guide { markdown: docs.guides()[path]@ }
        } else {
            HelpContentView::GuideNotFound { path }
        },
    }
}

/// What a help request for `topic` shows, or that the topic is unknown.
pub open spec fn help_for(
    app_name: Seq<char>,
    exec_name: Seq<char>,
    version: Option<Seq<char>>,
    root: CommandNode,
    docs: DocRegistry,
    topic: Seq<Seq<char>>,
) -> Result<HelpContentView, HelpError> {
    match resolve(root, topic) {
        Ok(target) => Ok(content_of(app_name, exec_name, version, docs, target)),
        Err(e) => Err(e),
    }
}

fn annotation_view<'a>(docs: &'a DocRegistry, path: &str) -> (found: Option<&'a CommandDoc>)
    ensures
        crate::help_page::opt_doc_view(found) == doc_at(*docs, path@),
{
    docs.command(path)
}

/// Turns a resolved target into what is shown for it.
pub fn target_content(
    app_name: &str,
    exec_name: &str,
    version: Option<&str>,
    docs: &DocRegistry,
    target: HelpTarget<'_>,
) -> (content: HelpContent)
    ensures
        content@ == content_of(
            app_name@,
            exec_name@,
            match version {
                Some(v) => Some(v@),
                None => None,
            },
            *docs,
            target@,
        ),
{
    match target {
        HelpTarget::Command { path, cmd } => {
            let page = HelpPage::from_clap(app_name, version, path.as_str(), cmd).with_docs(
                annotation_view(docs, path.as_str()),
            );
            HelpContent::Page { title: app_name.to_owned(), markdown: compose(&page, exec_name) }
        },
        HelpTarget::Guide { path } => {
            match docs.guide(path.as_str()) {
                Some(text) => HelpContent::Guide { markdown: text.to_owned() },
                None => HelpContent::GuideNotFound { path },
            }
        },
        HelpTarget::Program { cmd } => {
            proof {
                reveal_strlit("");
                assert(""@ =~= Seq::<char>::empty());
            }
            let page = HelpPage::from_clap(app_name, version, "", cmd).with_docs(
                annotation_view(docs, ""),
            );
            HelpContent::Page { title: app_name.to_owned(), markdown: compose(&page, exec_name) }
        },
    }
}

/// Resolves a topic and prepares what is shown for it.
pub fn help_content(
    app_name: &str,
    exec_name: &str,
    version: Option<&str>,
    root: &CommandNode,
    docs: &DocRegistry,
    topic: &[String],
) -> (content: Result<HelpContent, HelpError>)
    ensures
        match content {
            Ok(c) => help_for(
                app_name@,
                exec_name@,
                match version {
                    Some(v) => Some(v@),
                    None => None,
                },
                *root,
                *docs,
                texts(topic@),
            ) == Ok::<HelpContentView, HelpError>(c@),
            Err(e) => help_for(
                app_name@,
                exec_name@,
                match version {
                    Some(v) => Some(v@),
                    None => None,
                },
                *root,
                *docs,
                texts(topic@),
            ) == Err::<HelpContentView, HelpError>(e),
        },
{
    match resolve_help(root, topic) {
        Ok(target) => Ok(target_content(app_name, exec_name, version, docs, target)),
        Err(e) => Err(e),
    }
}

} // verus!
