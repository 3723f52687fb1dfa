//! Environment variables exported by the generated profile.

use crate::deploy::{name_check, verdict_view, Installed, ItemView, Seen};
use crate::error::CheckError;
use crate::text::chain;
use vstd::prelude::*;
use vstd::string::StringExecFns;

verus! {

/// An environment variable.
#[derive(Debug, PartialEq, Eq)]
pub struct Env {
    key: String,
    value: String,
}

impl View for Env {
    type V = ItemView;

    closed spec fn view(&self) -> ItemView {
        ItemView::Env { key: self.key@, value: self.value@ }
    }
}

impl Env {
    /// The variable `key` with the value `value`.
    pub fn from_kv(key: &str, value: &str) -> (r: Self)
        ensures
            r@ == (ItemView::Env { key: key@, value: value@ }),
    {
        Env { key: key.to_owned(), value: value.to_owned() }
    }

    /// Passes when the key is within the grammar of names.
    pub fn check(&self) -> (r: Result<(), CheckError>)
        ensures
            forall|packages: Set<Seq<char>>, seen: Seen|
                verdict_view(r) == #[trigger] self@.check(packages, seen),
    {
        name_check(self.key.as_str())
    }

    /// The line of the profile that exports the variable. Nothing else is done for it.
    pub fn install(&self) -> (r: Installed)
        ensures
            forall|output: Seq<char>| r@ == #[trigger] self@.installed(output),
    {
        let mut line = chain("export ", self.key.as_str());
        line.append("=\"");
        line.append(self.value.as_str());
        line.append("\"");
        Installed::Rc { command: line }
    }

    /// The variable in a few words, for messages.
    pub fn label(&self) -> (r: String)
        ensures
            r@ == self@.label(),
    {
        chain("env ", self.key.as_str())
    }

    /// The model of an environment variable is one.
    pub proof fn lemma_kind(&self)
        ensures
            self@ is Env,
    {
    }
}

} // verus!
