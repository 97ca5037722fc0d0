//! Extra text for commands and guides, keyed by their full path.
//!
//! Keys use dot separators for subcommands (`"git.commit.amend"`). The empty
//! key stands for the program itself.
use vstd::hash_map::StringHashMap;
use vstd::prelude::*;

use crate::text::{opt_text, texts};

verus! {

/// Extra help text layered on top of what the command tree declares.
#[derive(Debug, Clone)]
pub struct CommandDoc {
    /// Short blurb shown under the header; never `Some` of an empty text.
    pub description: Option<String>,
    /// Sample invocations, printed as a numbered list.
    pub examples: Vec<String>,
    /// Tips and caveats, printed as bullets.
    pub notes: Vec<String>,
}

/// The mathematical content of a [`CommandDoc`].
pub struct CommandDocView {
    pub description: Option<Seq<char>>,
    pub examples: Seq<Seq<char>>,
    pub notes: Seq<Seq<char>>,
}

/// An empty text counts as no text at all.
pub open spec fn non_empty_text(s: Seq<char>) -> Option<Seq<char>> {
    if s.len() == 0 {
        None
    } else {
        Some(s)
    }
}

impl View for CommandDoc {
    type V = CommandDocView;

    open spec fn view(&self) -> CommandDocView {
        CommandDocView {
            description: opt_text(self.description),
            examples: texts(self.examples@),
            notes: texts(self.notes@),
        }
    }
}

impl CommandDoc {
    /// The description, where there is one, is not empty.
    pub open spec fn normalized(&self) -> bool {
        match self.description {
            Some(t) => t@.len() > 0,
            None => true,
        }
    }

    /// Builds an annotation; an empty description is stored as absent.
    pub fn new(description: String, examples: Vec<String>, notes: Vec<String>) -> (doc: Self)
        ensures
            doc.normalized(),
            doc@.description == non_empty_text(description@),
                        doc.examples == examples,
            doc.notes == notes,
    {
        let description = if description.as_str().is_empty() {
            None
        } else {
            Some(description)
        };
        CommandDoc { description, examples, notes }
    }
}

/// Holds every command annotation and every guide of one program.
pub struct DocRegistry {
    commands: StringHashMap<CommandDoc>,
    guides: StringHashMap<String>,
}

impl Default for DocRegistry {
    /// An empty registry.
    fn default() -> (reg: Self)
        ensures
            reg.commands() == Map::<Seq<char>, CommandDoc>::empty(),
            reg.guides() == Map::<Seq<char>, String>::empty(),
    {
        DocRegistry::new()
    }
}

impl DocRegistry {
    /// The annotations, by path.
    pub closed spec fn commands(&self) -> Map<Seq<char>, CommandDoc> {
        self.commands@
    }

    /// The guide documents, by path.
    pub closed spec fn guides(&self) -> Map<Seq<char>, String> {
        self.guides@
    }

    /// An empty registry.
    pub fn new() -> (reg: Self)
        ensures
            reg.commands() == Map::<Seq<char>, CommandDoc>::empty(),
            reg.guides() == Map::<Seq<char>, String>::empty(),
    {
        DocRegistry { commands: StringHashMap::new(), guides: StringHashMap::new() }
    }

    /// Attaches an annotation to a command path, replacing an earlier one.
    pub fn register_command(&mut self, key: String, doc: CommandDoc)
        ensures
            final(self).commands() == old(self).commands().insert(key@, doc),
            final(self).guides() == old(self).guides(),
    {
        self.commands.insert(key, doc);
    }

    /// Adds a markdown guide under a path, replacing an earlier one.
    pub fn register_guide(&mut self, key: String, content: String)
        ensures
            final(self).guides() == old(self).guides().insert(key@, content),
            final(self).commands() == old(self).commands(),
    {
        self.guides.insert(key, content);
    }

    /// The annotation registered under `key`, if any.
    pub fn command(&self, key: &str) -> (found: Option<&CommandDoc>)
        ensures
            match found {
                Some(doc) => self.commands().contains_key(key@) && *doc == self.commands()[key@],
                None => !self.commands().contains_key(key@),
            },
    {
        self.commands.get(key)
    }

    /// The guide registered under `key`, if any.
    pub fn guide(&self, key: &str) -> (found: Option<&str>)
        ensures
            match found {
                Some(text) => self.guides().contains_key(key@) && text@ == self.guides()[key@]@,
                None => !self.guides().contains_key(key@),
            },
    {
        match self.guides.get(key) {
            Some(text) => Some(text.as_str()),
            None => None,
        }
    }
}

} // verus!
