//! The command hierarchy as the help system reads it: named nodes, each with
//! its declared arguments, its texts and its children, in declaration order.
use vstd::prelude::*;

verus! {

/// How many values an argument accepts.
#[derive(Debug, Clone, Copy, PartialEq, Eq, Structural)]
pub struct ValueRange {
    /// The least number of values.
    pub min_values: usize,
    /// The greatest number of values.
    pub max_values: usize,
}

/// One declared argument of a command: a positional or an option.
#[derive(Debug, Clone)]
pub struct ArgSpec {
    /// The argument's identifier.
    pub id: String,
    /// Its help text, if any.
    pub help: Option<String>,
    /// Whether it is given by position rather than by a flag.
    pub positional: bool,
    /// Whether the command marks it mandatory.
    pub required: bool,
    /// How many values it accepts, where the command says so.
    pub num_args: Option<ValueRange>,
    /// Its one-character flag, if any.
    pub short: Option<char>,
    /// Its long flag name, if any.
    pub long: Option<String>,
    /// Whether giving it consumes a value.
    pub takes_values: bool,
    /// The placeholder names of its values.
    pub value_names: Vec<String>,
    /// Its declared default values.
    pub default_values: Vec<String>,
}

/// A node of the command tree.
#[derive(Debug)]
pub struct CommandNode {
    /// The name a parent finds this node by.
    pub name: String,
    /// The one-line summary.
    pub about: Option<String>,
    /// The long description.
    pub long_about: Option<String>,
    /// The usage line, as the tree renders it.
    pub usage: String,
    /// The arguments, in declaration order.
    pub args: Vec<ArgSpec>,
    /// The child commands, in declaration order.
    pub subcommands: Vec<CommandNode>,
}

impl CommandNode {
    /// `i` is the position of the first child called `name`.
    pub open spec fn first_child_at(self, name: Seq<char>, i: int) -> bool {
        &&& 0 <= i < self.subcommands@.len()
        &&& self.subcommands@[i].name@ == name
        &&& forall|j: int| 0 <= j < i ==> self.subcommands@[j].name@ != name
    }

    /// The first child whose name is exactly `name`, if there is one.
    pub open spec fn child_named(self, name: Seq<char>) -> Option<CommandNode> {
        if exists|i: int| self.first_child_at(name, i) {
            Some(self.subcommands@[choose|i: int| self.first_child_at(name, i)])
        } else {
            None
        }
    }

    /// Two positions that are both the first child called `name` are one.
    pub proof fn lemma_first_child_unique(self, name: Seq<char>, i: int, j: int)
        requires
            self.first_child_at(name, i),
            self.first_child_at(name, j),
        ensures
            i == j,
    {
    }

    /// Looks up a child by exact name; of several with one name the first.
    pub fn find_subcommand(&self, name: &str) -> (found: Option<&CommandNode>)
        ensures
            match found {
                Some(child) => self.child_named(name@) == Some(*child),
                None => self.child_named(name@) is None,
            },
    {
        let mut i: usize = 0;
        while i < self.subcommands.len()
            invariant
                i <= self.subcommands.len(),
                forall|j: int| 0 <= j < i ==> self.subcommands@[j].name@ != name@,
            decreases self.subcommands.len() - i,
        {
            if crate::text::same_text(self.subcommands[i].name.as_str(), name) {
                proof {
                    assert(self.first_child_at(name@, i as int));
                    let k = choose|k: int| self.first_child_at(name@, k);
                    self.lemma_first_child_unique(name@, i as int, k);
                }
                return Some(&self.subcommands[i]);
            }
            i = i + 1;
        }
        None
    }
}

} // verus!
