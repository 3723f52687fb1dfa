//! Commands of the user's own: executable files in a `bin` directory that is put on `PATH`.

use crate::deploy::{
    effect_view, name_check, target_check, verdict_view, Effect, Installed, ItemView, Seen, Source,
};
use crate::error::CheckError;
use crate::op::file::PathKind;
use crate::path::{join_path, joined};
use crate::types::config::{Content, StringOr};
use crate::text::chain;
use vstd::prelude::*;

verus! {

/// A command of the user's own.
#[derive(Debug, PartialEq, Eq)]
pub struct Command {
    name: String,
    content: StringOr<Content>,
    config_path: String,
    install_path: String,
    install_file: String,
}

impl View for Command {
    type V = ItemView;

    closed spec fn view(&self) -> ItemView {
        ItemView::Command {
            name: self.name@,
            content: self.content@,
            config_dir: self.config_path@,
            bin_dir: self.install_path@,
            target: self.install_file@,
        }
    }
}

impl Command {
    /// The command `name` with the content `content`, declared by a configuration in the
    /// directory `config_path`, to be installed as `install_path/name`.
    pub fn from_content(
        name: &str,
        content: &StringOr<Content>,
        config_path: &str,
        install_path: &str,
    ) -> (r: Self)
        ensures
            r@ == (ItemView::Command {
                name: name@,
                content: content@,
                config_dir: config_path@,
                bin_dir: install_path@,
                target: joined(install_path@, name@),
            }),
    {
        Command {
            name: name.to_owned(),
            content: content.clone(),
            config_path: config_path.to_owned(),
            install_path: install_path.to_owned(),
            install_file: join_path(install_path, name),
        }
    }

    /// Where the text of the command comes from.
    pub fn source(&self) -> (r: Source)
        ensures
            Some(r@) == self@.source(),
    {
        Source::of_string_or(&self.content, self.config_path.as_str())
    }

    /// The file that the command is installed as.
    pub fn target(&self) -> (r: String)
        ensures
            Some(r@) == self@.target_path(),
    {
        self.install_file.clone()
    }

    /// Passes when the name is within the grammar, the content is text or a file that
    /// exists, and no directory stands where the command is to be written. `source` and
    /// `target` are what was seen at the content's file and at the command's own.
    pub fn check(&self, source: PathKind, target: PathKind) -> (r: Result<(), CheckError>)
        ensures
            forall|packages: Set<Seq<char>>|
                verdict_view(r) == #[trigger] self@.check(packages, Seen { source, target }),
    {
        match name_check(self.name.as_str()) {
            Ok(_) => {},
            Err(error) => {
                return Err(error);
            },
        }
        match self.source().check(source) {
            Ok(_) => {},
            Err(error) => {
                return Err(error);
            },
        }
        target_check(self.install_file.as_str(), target)
    }

    /// The effect of installing the command: text is written to the target and made
    /// executable, a file is copied there.
    pub fn install(&self) -> (r: Result<Effect, CheckError>)
        ensures
            forall|apt: crate::op::apt::AptOpView| effect_view(r) == #[trigger] self@.effect(apt),
    {
        self.source().install_to(self.install_file.as_str())
    }

    /// What the installed command leaves behind: its directory, for `PATH`.
    pub fn installed(&self) -> (r: Installed)
        ensures
            forall|output: Seq<char>| r@ == #[trigger] self@.installed(output),
    {
        Installed::Path { path: self.install_path.clone() }
    }

    /// The command in a few words, for messages.
    pub fn label(&self) -> (r: String)
        ensures
            r@ == self@.label(),
    {
        chain("command ", self.name.as_str())
    }

    /// The model of a command is a command.
    pub proof fn lemma_kind(&self)
        ensures
            self@ is Command,
    {
    }
}

} // verus!
