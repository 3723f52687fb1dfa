//! Files put at a place of their own.

use crate::deploy::{
    effect_view, target_check, verdict_view, Effect, Installed, ItemView, Seen, Source,
};
use crate::error::CheckError;
use crate::op::file::PathKind;
use crate::path::{join_path, joined};
use crate::types::config::{Content, StringOr};
use crate::text::chain;
use vstd::prelude::*;

verus! {

/// A file to install.
#[derive(Debug, PartialEq, Eq)]
pub struct File {
    content: StringOr<Content>,
    config_path: String,
    install_file: String,
}

impl View for File {
    type V = ItemView;

    closed spec fn view(&self) -> ItemView {
        ItemView::File {
            content: self.content@,
            config_dir: self.config_path@,
            target: self.install_file@,
        }
    }
}

impl File {
    /// The file at `path` with the content `content`, declared by a configuration in the
    /// directory `config_path`. A relative `path` is taken under `install_path`, an
    /// absolute one as it stands.
    pub fn from_content(
        path: &str,
        content: &StringOr<Content>,
        config_path: &str,
        install_path: &str,
    ) -> (r: Self)
        ensures
            r@ == (ItemView::File {
                content: content@,
                config_dir: config_path@,
                target: joined(install_path@, path@),
            }),
    {
        File {
            content: content.clone(),
            config_path: config_path.to_owned(),
            install_file: join_path(install_path, path),
        }
    }

    /// Where the text of the file comes from.
    pub fn source(&self) -> (r: Source)
        ensures
            Some(r@) == self@.source(),
    {
        Source::of_string_or(&self.content, self.config_path.as_str())
    }

    /// The place that the file is written to.
    pub fn target(&self) -> (r: String)
        ensures
            Some(r@) == self@.target_path(),
    {
        self.install_file.clone()
    }

    /// Passes when the content is text or a file that exists, and no directory stands where
    /// the file is to be written. `source` and `target` are what was seen at the content's
    /// file and at the target.
    pub fn check(&self, source: PathKind, target: PathKind) -> (r: Result<(), CheckError>)
        ensures
            forall|packages: Set<Seq<char>>|
                verdict_view(r) == #[trigger] self@.check(packages, Seen { source, target }),
    {
        match self.source().check(source) {
            Ok(_) => {},
            Err(error) => {
                return Err(error);
            },
        }
        target_check(self.install_file.as_str(), target)
    }

    /// The effect of installing the file: text is written to the target, a file is copied there.
    pub fn install(&self) -> (r: Result<Effect, CheckError>)
        ensures
            forall|apt: crate::op::apt::AptOpView| effect_view(r) == #[trigger] self@.effect(apt),
    {
        self.source().install_to(self.install_file.as_str())
    }

    /// What the installed file leaves behind: its path.
    pub fn installed(&self) -> (r: Installed)
        ensures
            forall|output: Seq<char>| r@ == #[trigger] self@.installed(output),
    {
        Installed::File { file: self.install_file.clone() }
    }

    /// The file in a few words, for messages.
    pub fn label(&self) -> (r: String)
        ensures
            r@ == self@.label(),
    {
        chain("file ", self.install_file.as_str())
    }

    /// The model of a file is a file.
    pub proof fn lemma_kind(&self)
        ensures
            self@ is File,
    {
    }
}

} // verus!
