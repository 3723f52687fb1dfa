//! Aliases: a name that stands for a command in the user's shell.

use crate::deploy::{name_check, verdict_view, Installed, ItemView, Seen};
use crate::error::CheckError;
use crate::text::{chain, escape};
use vstd::prelude::*;
use vstd::string::StringExecFns;

verus! {

/// An alias of the user's shell.
#[derive(Debug, PartialEq, Eq)]
pub struct Alias {
    name: String,
    command: String,
}

impl View for Alias {
    type V = ItemView;

    closed spec fn view(&self) -> ItemView {
        ItemView::Alias { name: self.name@, command: self.command@ }
    }
}

impl Alias {
    /// The alias `name` for `command`.
    pub fn from_pair(name: &str, command: &str) -> (r: Self)
        ensures
            r@ == (ItemView::Alias { name: name@, command: command@ }),
    {
        Alias { name: name.to_owned(), command: command.to_owned() }
    }

    /// Passes when the name is within the grammar.
    pub fn check(&self) -> (r: Result<(), CheckError>)
        ensures
            forall|packages: Set<Seq<char>>, seen: Seen|
                verdict_view(r) == #[trigger] self@.check(packages, seen),
    {
        name_check(self.name.as_str())
    }

    /// The line of the profile that defines the alias. Nothing else is done for it.
    pub fn install(&self) -> (r: Installed)
        ensures
            forall|output: Seq<char>| r@ == #[trigger] self@.installed(output),
    {
        let mut line = chain("alias ", self.name.as_str());
        line.append("=$'");
        line.append(escape(self.command.as_str()).as_str());
        line.append("'");
        Installed::Rc { command: line }
    }

    /// The alias in a few words, for messages.
    pub fn label(&self) -> (r: String)
        ensures
            r@ == self@.label(),
    {
        chain("alias ", self.name.as_str())
    }

    /// The model of an alias is an alias.
    pub proof fn lemma_kind(&self)
        ensures
            self@ is Alias,
    {
    }
}

} // verus!
