//! Snippets of shell text for the generated profile.

use crate::deploy::{effect_view, verdict_view, Effect, Installed, ItemView, Seen, Source};
use crate::error::CheckError;
use crate::op::file::PathKind;
use crate::types::config::Content;
use vstd::prelude::*;

verus! {

/// A snippet for the generated profile: text, or a file that holds it.
#[derive(Debug, PartialEq, Eq)]
pub struct Envrc {
    content: Content,
    config_path: String,
}

impl View for Envrc {
    type V = ItemView;

    closed spec fn view(&self) -> ItemView {
        ItemView::Envrc { content: self.content@, config_dir: self.config_path@ }
    }
}

impl Envrc {
    /// The snippet `content`, declared by a configuration in the directory `config_path`.
    pub fn from_content(content: &Content, config_path: &str) -> (r: Self)
        ensures
            r@ == (ItemView::Envrc { content: content@, config_dir: config_path@ }),
    {
        Envrc { content: content.clone(), config_path: config_path.to_owned() }
    }

    /// Where the text of the snippet comes from.
    pub fn source(&self) -> (r: Source)
        ensures
            Some(r@) == self@.source(),
    {
        Source::of_content(&self.content, self.config_path.as_str())
    }

    /// Passes when the snippet is text, or a file that exists; `source` is what was seen at
    /// the file's path.
    pub fn check(&self, source: PathKind) -> (r: Result<(), CheckError>)
        ensures
            forall|packages: Set<Seq<char>>, target: PathKind|
                verdict_view(r) == #[trigger] self@.check(packages, Seen { source, target }),
    {
        self.source().check(source)
    }

    /// The effect of installing the snippet: nothing for text, reading the file otherwise.
    pub fn install(&self) -> (r: Result<Effect, CheckError>)
        ensures
            forall|apt: crate::op::apt::AptOpView| effect_view(r) == #[trigger] self@.effect(apt),
    {
        match self.source() {
            Source::Text(_) => Ok(Effect::Nothing),
            Source::File(path) => Ok(Effect::Read { path }),
            Source::Unsupported(url) => Err(CheckError::UnsupportedSource(url)),
        }
    }

    /// The snippet for the profile: the text itself, or `output`, what was read from the file.
    pub fn installed(&self, output: &str) -> (r: Installed)
        ensures
            r@ == self@.installed(output@),
    {
        match &self.content {
            Content::Raw(text) => Installed::Rc { command: text.clone() },
            _ => Installed::Rc { command: output.to_owned() },
        }
    }

    /// The snippet in a few words, for messages.
    pub fn label(&self) -> (r: String)
        ensures
            r@ == self@.label(),
    {
        "envrc".to_owned()
    }

    /// The model of a snippet is a snippet.
    pub proof fn lemma_kind(&self)
        ensures
            self@ is Envrc,
    {
    }
}

} // verus!
