//! Install items: what a configuration entry checks before anything is changed, what
//! installing it does, and what it leaves behind.
//!
//! An item does no work itself. Its check decides on what was seen of the filesystem and on
//! the package index; its install names the one [`Effect`] to carry out; and once that is
//! done, the item says what was [`Installed`].

pub mod alias;
pub mod apt;
pub mod command;
pub mod deployer;
pub mod env;
pub mod envrc;
pub mod file;
pub mod profile;
pub mod run;
pub mod startup;
pub mod uninstall;

use crate::deploy::alias::Alias;
use crate::deploy::apt::Apt;
use crate::deploy::command::Command;
use crate::deploy::env::Env;
use crate::deploy::envrc::Envrc;
use crate::deploy::file::File;
use crate::error::{CheckError, CheckErrorView};
use crate::ident::{is_valid_name, valid_name};
use crate::op::apt::{AptOp, AptOpView};
use crate::op::file::PathKind;
use crate::path::{join_path, joined};
use crate::program::{CommandLine, CommandLineView};
use crate::text::escape_quotes;
use crate::types::config::{Content, ContentView, StringOr, StringOrView};
use vstd::prelude::*;

verus! {

/// The permissions of a file written from text: `rwxr-xr-x`.
pub const EXECUTABLE: u32 = 0o755;

/// What one installed item left behind.
#[derive(Debug, PartialEq, Eq)]
pub enum Installed {
    /// A package was installed.
    Apt { name: String },
    /// Shell text for the generated profile.
    Rc { command: String },
    /// A directory for `PATH`.
    Path { path: String },
    /// A file was written.
    File { file: String },
}

/// The model of an [`Installed`].
pub ghost enum InstalledView {
    Apt { name: Seq<char> },
    Rc { command: Seq<char> },
    Path { path: Seq<char> },
    File { file: Seq<char> },
}

impl DeepView for Installed {
    type V = InstalledView;

    open spec fn deep_view(&self) -> InstalledView {
        match *self {
            Installed::Apt { name } => InstalledView::Apt { name: name@ },
            Installed::Rc { command } => InstalledView::Rc { command: command@ },
            Installed::Path { path } => InstalledView::Path { path: path@ },
            Installed::File { file } => InstalledView::File { file: file@ },
        }
    }
}

impl View for Installed {
    type V = InstalledView;

    open spec fn view(&self) -> InstalledView {
        self.deep_view()
    }
}

/// The one thing that installing an item does to the machine.
#[derive(Debug, PartialEq, Eq)]
pub enum Effect {
    /// Nothing: the item only adds to the generated profile.
    Nothing,
    /// Run a command of the package manager, under the retry rule.
    Install(CommandLine),
    /// Write `content` to `path`, making the directories above it, and set `mode` if given.
    Write { path: String, content: String, mode: Option<u32> },
    /// Copy `source` to `target`, making the directories above it and keeping the
    /// permissions of `source`.
    Copy { source: String, target: String },
    /// Read the text of the file at `path`.
    Read { path: String },
    /// Remove the directory at `path` with all that is in it.
    Remove { path: String },
}

/// The model of an [`Effect`].
pub ghost enum EffectView {
    Nothing,
    Install(CommandLineView),
    Write { path: Seq<char>, content: Seq<char>, mode: Option<u32> },
    Copy { source: Seq<char>, target: Seq<char> },
    Read { path: Seq<char> },
    Remove { path: Seq<char> },
}

impl EffectView {
    /// Whether the effect changes the machine: the filesystem or the installed packages.
    pub open spec fn mutates(self) -> bool {
        self is Install || self is Write || self is Copy || self is Remove
    }
}

impl DeepView for Effect {
    type V = EffectView;

    open spec fn deep_view(&self) -> EffectView {
        match *self {
            Effect::Nothing => EffectView::Nothing,
            Effect::Install(command) => EffectView::Install(command@),
            Effect::Write { path, content, mode } => EffectView::Write {
                path: path@,
                content: content@,
                mode,
            },
            Effect::Copy { source, target } => EffectView::Copy {
                source: source@,
                target: target@,
            },
            Effect::Read { path } => EffectView::Read { path: path@ },
            Effect::Remove { path } => EffectView::Remove { path: path@ },
        }
    }
}

impl View for Effect {
    type V = EffectView;

    open spec fn view(&self) -> EffectView {
        self.deep_view()
    }
}

/// What was seen of the two paths that an item's check may ask about.
#[derive(Clone, Copy, Debug, PartialEq, Eq, Structural)]
pub struct Seen {
    /// What stands at the item's source, where it has one.
    pub source: PathKind,
    /// What stands at the item's target, where it has one.
    pub target: PathKind,
}

/// Where the text of an item comes from, once its content is resolved.
pub ghost enum SourceView {
    /// The text itself.
    Text(Seq<char>),
    /// The file at this path.
    File(Seq<char>),
    /// A source that nothing can be installed from.
    Unsupported(Seq<char>),
}

/// Resolves a content: a file is looked up under `config_dir`, the directory of the
/// configuration that declared it.
pub open spec fn resolve(content: ContentView, config_dir: Seq<char>) -> SourceView {
    match content {
        ContentView::Raw(text) => SourceView::Text(text),
        ContentView::File(path) => SourceView::File(joined(config_dir, path)),
        ContentView::Url(url) => SourceView::Unsupported(url),
    }
}

/// Resolves a content for which plain text may stand.
pub open spec fn resolve_or_text(
    content: StringOrView<ContentView>,
    config_dir: Seq<char>,
) -> SourceView {
    match content {
        StringOrView::String(text) => SourceView::Text(text),
        StringOrView::Object(object) => resolve(object, config_dir),
    }
}

/// The check of a source: a file must exist, and an unsupported source never passes.
pub open spec fn check_source(source: SourceView, seen: PathKind) -> Result<(), CheckErrorView> {
    match source {
        SourceView::Text(_) => Ok(()),
        SourceView::File(path) => if seen == PathKind::Missing {
            Err(CheckErrorView::MissingSource(path))
        } else {
            Ok(())
        },
        SourceView::Unsupported(url) => Err(CheckErrorView::UnsupportedSource(url)),
    }
}

/// The check of a target: it must not be a directory.
pub open spec fn check_target(target: Seq<char>, seen: PathKind) -> Result<(), CheckErrorView> {
    if seen == PathKind::Directory {
        Err(CheckErrorView::TargetIsDirectory(target))
    } else {
        Ok(())
    }
}

/// The check of a name against the grammar.
pub open spec fn check_name(name: Seq<char>) -> Result<(), CheckErrorView> {
    if is_valid_name(name) {
        Ok(())
    } else {
        Err(CheckErrorView::InvalidName(name))
    }
}

/// The first failure of two checks, if any.
pub open spec fn both(
    first: Result<(), CheckErrorView>,
    second: Result<(), CheckErrorView>,
) -> Result<(), CheckErrorView> {
    match first {
        Ok(_) => second,
        Err(error) => Err(error),
    }
}

/// The effect that puts the text of `source` at `target`: text is written and made
/// executable, a file is copied.
pub open spec fn effect_of(source: SourceView, target: Seq<char>) -> Result<
    EffectView,
    CheckErrorView,
> {
    match source {
        SourceView::Text(text) => Ok(
            EffectView::Write { path: target, content: text, mode: Some(EXECUTABLE) },
        ),
        SourceView::File(path) => Ok(EffectView::Copy { source: path, target }),
        SourceView::Unsupported(url) => Err(CheckErrorView::UnsupportedSource(url)),
    }
}

/// The line of the profile that defines an alias.
pub open spec fn alias_line(name: Seq<char>, command: Seq<char>) -> Seq<char> {
    "alias "@ + name + "=$'"@ + escape_quotes(command) + "'"@
}

/// The line of the profile that exports an environment variable.
pub open spec fn export_line(key: Seq<char>, value: Seq<char>) -> Seq<char> {
    "export "@ + key + "=\""@ + value + "\""@
}

/// The model of an install item, whichever its kind.
#[allow(inconsistent_fields)]
pub ghost enum ItemView {
    /// A package of the package manager.
    Apt { name: Seq<char> },
    /// A shell alias.
    Alias { name: Seq<char>, command: Seq<char> },
    /// A command of the user's own: an executable file `target` in `bin_dir`.
    Command {
        name: Seq<char>,
        content: StringOrView<ContentView>,
        config_dir: Seq<char>,
        bin_dir: Seq<char>,
        target: Seq<char>,
    },
    /// An environment variable.
    Env { key: Seq<char>, value: Seq<char> },
    /// A snippet for the generated profile.
    Envrc { content: ContentView, config_dir: Seq<char> },
    /// A file at `target`.
    File { content: StringOrView<ContentView>, config_dir: Seq<char>, target: Seq<char> },
}

impl ItemView {
    /// Where the item's text comes from; `None` for the kinds that have no content.
    pub open spec fn source(self) -> Option<SourceView> {
        match self {
            ItemView::Command { content, config_dir, .. } => Some(
                resolve_or_text(content, config_dir),
            ),
            ItemView::Envrc { content, config_dir } => Some(resolve(content, config_dir)),
            ItemView::File { content, config_dir, .. } => Some(
                resolve_or_text(content, config_dir),
            ),
            _ => None,
        }
    }

    /// The path that the check asks about as the item's source: that of its file, if its
    /// content is one.
    pub open spec fn source_path(self) -> Option<Seq<char>> {
        match self.source() {
            Some(SourceView::File(path)) => Some(path),
            _ => None,
        }
    }

    /// The path that the item is written to, for the kinds that write a file.
    pub open spec fn target_path(self) -> Option<Seq<char>> {
        match self {
            ItemView::Command { target, .. } => Some(target),
            ItemView::File { target, .. } => Some(target),
            _ => None,
        }
    }

    /// Whether the check needs the package index.
    pub open spec fn uses_packages(self) -> bool {
        self is Apt
    }

    /// The item in a few words, for messages: its kind, and its name or its place.
    pub open spec fn label(self) -> Seq<char> {
        match self {
            ItemView::Apt { name } => "apt "@ + name,
            ItemView::Alias { name, .. } => "alias "@ + name,
            ItemView::Command { name, .. } => "command "@ + name,
            ItemView::Env { key, .. } => "env "@ + key,
            ItemView::Envrc { .. } => "envrc"@,
            ItemView::File { target, .. } => "file "@ + target,
        }
    }

    /// The check, which changes nothing: it decides on the item, on the packages that the
    /// package manager knows, and on what was seen at the item's source and target.
    pub open spec fn check(self, packages: Set<Seq<char>>, seen: Seen) -> Result<
        (),
        CheckErrorView,
    > {
        match self {
            ItemView::Apt { name } => if packages.contains(name) {
                Ok(())
            } else {
                Err(CheckErrorView::UnknownPackage(name))
            },
            ItemView::Alias { name, .. } => check_name(name),
            ItemView::Command { name, content, config_dir, target, .. } => both(
                check_name(name),
                both(
                    check_source(resolve_or_text(content, config_dir), seen.source),
                    check_target(target, seen.target),
                ),
            ),
            ItemView::Env { key, .. } => check_name(key),
            ItemView::Envrc { content, config_dir } => check_source(
                resolve(content, config_dir),
                seen.source,
            ),
            ItemView::File { content, config_dir, target } => both(
                check_source(resolve_or_text(content, config_dir), seen.source),
                check_target(target, seen.target),
            ),
        }
    }

    /// The one effect of installing the item, with the package manager `apt`. An item with
    /// an unsupported source has none and fails.
    pub open spec fn effect(self, apt: AptOpView) -> Result<EffectView, CheckErrorView> {
        match self {
            ItemView::Apt { name } => Ok(EffectView::Install(apt.install(name))),
            ItemView::Alias { .. } => Ok(EffectView::Nothing),
            ItemView::Command { content, config_dir, target, .. } => effect_of(
                resolve_or_text(content, config_dir),
                target,
            ),
            ItemView::Env { .. } => Ok(EffectView::Nothing),
            ItemView::Envrc { content, config_dir } => match resolve(content, config_dir) {
                SourceView::Text(_) => Ok(EffectView::Nothing),
                SourceView::File(path) => Ok(EffectView::Read { path }),
                SourceView::Unsupported(url) => Err(CheckErrorView::UnsupportedSource(url)),
            },
            ItemView::File { content, config_dir, target } => effect_of(
                resolve_or_text(content, config_dir),
                target,
            ),
        }
    }

    /// What the item leaves behind once its effect is done; `output` is the text that the
    /// effect gave, which only a snippet read from a file uses.
    pub open spec fn installed(self, output: Seq<char>) -> InstalledView {
        match self {
            ItemView::Apt { name } => InstalledView::Apt { name },
            ItemView::Alias { name, command } => InstalledView::Rc {
                command: alias_line(name, command),
            },
            ItemView::Command { bin_dir, .. } => InstalledView::Path { path: bin_dir },
            ItemView::Env { key, value } => InstalledView::Rc { command: export_line(key, value) },
            ItemView::Envrc { content, .. } => match content {
                ContentView::Raw(text) => InstalledView::Rc { command: text },
                _ => InstalledView::Rc { command: output },
            },
            ItemView::File { target, .. } => InstalledView::File { file: target },
        }
    }
}

/// The grammar of names decides the check of an alias and of an environment variable, and
/// no command passes its check with a name outside the grammar: such an item is turned
/// down for its name, whatever else holds of it.
pub proof fn lemma_names_are_checked(item: ItemView, packages: Set<Seq<char>>, seen: Seen)
    ensures
        item matches ItemView::Alias { name, .. } ==> (item.check(packages, seen) is Ok
            <==> is_valid_name(name)),
        item matches ItemView::Env { key, .. } ==> (item.check(packages, seen) is Ok
            <==> is_valid_name(key)),
        item matches ItemView::Command { name, .. } ==> (item.check(packages, seen) is Ok
            ==> is_valid_name(name)),
        item matches ItemView::Alias { name, .. } ==> (!is_valid_name(name) ==> item.check(
            packages,
            seen,
        ) == Err::<(), CheckErrorView>(CheckErrorView::InvalidName(name))),
        item matches ItemView::Env { key, .. } ==> (!is_valid_name(key) ==> item.check(
            packages,
            seen,
        ) == Err::<(), CheckErrorView>(CheckErrorView::InvalidName(key))),
        item matches ItemView::Command { name, .. } ==> (!is_valid_name(name) ==> item.check(
            packages,
            seen,
        ) == Err::<(), CheckErrorView>(CheckErrorView::InvalidName(name))),
{
}

/// Text is installed as it is: a command or a file whose content is the text `text` is
/// written to its target with exactly `text` in it, and made executable.
pub proof fn lemma_text_is_written_as_it_is(item: ItemView, apt: AptOpView, text: Seq<char>)
    requires
        item.source() == Some(SourceView::Text(text)),
        item is Command || item is File,
    ensures
        item.target_path() is Some,
        item.effect(apt) == Ok::<EffectView, CheckErrorView>(
            EffectView::Write {
                path: item.target_path().unwrap(),
                content: text,
                mode: Some(EXECUTABLE),
            },
        ),
{
}

/// The model of the outcome of a check.
pub open spec fn verdict_view(r: Result<(), CheckError>) -> Result<(), CheckErrorView> {
    match r {
        Ok(_) => Ok(()),
        Err(error) => Err(error@),
    }
}

/// The model of the outcome of asking an item for its effect.
pub open spec fn effect_view(r: Result<Effect, CheckError>) -> Result<EffectView, CheckErrorView> {
    match r {
        Ok(effect) => Ok(effect@),
        Err(error) => Err(error@),
    }
}

/// Where the text of an item comes from, once its content is resolved.
#[derive(Debug, PartialEq, Eq)]
pub enum Source {
    /// The text itself.
    Text(String),
    /// The file at this path.
    File(String),
    /// A source that nothing can be installed from.
    Unsupported(String),
}

impl DeepView for Source {
    type V = SourceView;

    open spec fn deep_view(&self) -> SourceView {
        match *self {
            Source::Text(text) => SourceView::Text(text@),
            Source::File(path) => SourceView::File(path@),
            Source::Unsupported(url) => SourceView::Unsupported(url@),
        }
    }
}

impl View for Source {
    type V = SourceView;

    open spec fn view(&self) -> SourceView {
        self.deep_view()
    }
}

impl Source {
    /// Resolves a content: a file is looked up under `config_dir`.
    pub fn of_content(content: &Content, config_dir: &str) -> (r: Source)
        ensures
            r@ == resolve(content@, config_dir@),
    {
        match content {
            Content::Raw(text) => Source::Text(text.clone()),
            Content::File(path) => Source::File(join_path(config_dir, path.as_str())),
            Content::Url(url) => Source::Unsupported(url.clone()),
        }
    }

    /// Resolves a content for which plain text may stand.
    pub fn of_string_or(content: &StringOr<Content>, config_dir: &str) -> (r: Source)
        ensures
            r@ == resolve_or_text(content@, config_dir@),
    {
        match content {
            StringOr::String(text) => Source::Text(text.clone()),
            StringOr::Object(object) => Source::of_content(object, config_dir),
        }
    }

    /// The path of the file, if the source is one.
    pub fn path(&self) -> (r: Option<String>)
        ensures
            r.deep_view() == match self@ {
                SourceView::File(path) => Some(path),
                _ => None,
            },
    {
        match self {
            Source::File(path) => Some(path.clone()),
            _ => None,
        }
    }

    /// Checks the source against what was seen at its path.
    pub fn check(&self, seen: PathKind) -> (r: Result<(), CheckError>)
        ensures
            verdict_view(r) == check_source(self@, seen),
    {
        match self {
            Source::Text(_) => Ok(()),
            Source::File(path) => match seen {
                PathKind::Missing => Err(CheckError::MissingSource(path.clone())),
                _ => Ok(()),
            },
            Source::Unsupported(url) => Err(CheckError::UnsupportedSource(url.clone())),
        }
    }

    /// The effect that puts the text of the source at `target`.
    pub fn install_to(&self, target: &str) -> (r: Result<Effect, CheckError>)
        ensures
            effect_view(r) == effect_of(self@, target@),
    {
        match self {
            Source::Text(text) => Ok(
                Effect::Write {
                    path: target.to_owned(),
                    content: text.clone(),
                    mode: Some(EXECUTABLE),
                },
            ),
            Source::File(path) => Ok(
                Effect::Copy { source: path.clone(), target: target.to_owned() },
            ),
            Source::Unsupported(url) => Err(CheckError::UnsupportedSource(url.clone())),
        }
    }
}

/// Checks a target against what was seen at it.
pub fn target_check(target: &str, seen: PathKind) -> (r: Result<(), CheckError>)
    ensures
        verdict_view(r) == check_target(target@, seen),
{
    match seen {
        PathKind::Directory => Err(CheckError::TargetIsDirectory(target.to_owned())),
        _ => Ok(()),
    }
}

/// Checks a name against the grammar.
pub fn name_check(name: &str) -> (r: Result<(), CheckError>)
    ensures
        verdict_view(r) == check_name(name@),
{
    if valid_name(name) {
        Ok(())
    } else {
        Err(CheckError::InvalidName(name.to_owned()))
    }
}

/// An install item of any of the six kinds.
#[derive(Debug, PartialEq, Eq)]
pub enum InstallItem {
    Apt(Apt),
    Alias(Alias),
    Command(Command),
    Env(Env),
    Envrc(Envrc),
    File(File),
}

impl DeepView for InstallItem {
    type V = ItemView;

    open spec fn deep_view(&self) -> ItemView {
        match *self {
            InstallItem::Apt(item) => item@,
            InstallItem::Alias(item) => item@,
            InstallItem::Command(item) => item@,
            InstallItem::Env(item) => item@,
            InstallItem::Envrc(item) => item@,
            InstallItem::File(item) => item@,
        }
    }
}

impl View for InstallItem {
    type V = ItemView;

    open spec fn view(&self) -> ItemView {
        self.deep_view()
    }
}

impl InstallItem {
    /// The path that the check asks about as the item's source, if it has one.
    pub fn source_path(&self) -> (r: Option<String>)
        ensures
            r.deep_view() == self@.source_path(),
    {
        match self {
            InstallItem::Command(item) => item.source().path(),
            InstallItem::Envrc(item) => item.source().path(),
            InstallItem::File(item) => item.source().path(),
            InstallItem::Apt(item) => {
                proof {
                    item.lemma_kind();
                }
                None
            },
            InstallItem::Alias(item) => {
                proof {
                    item.lemma_kind();
                }
                None
            },
            InstallItem::Env(item) => {
                proof {
                    item.lemma_kind();
                }
                None
            },
        }
    }

    /// The path that the item is written to, if it writes a file.
    pub fn target_path(&self) -> (r: Option<String>)
        ensures
            r.deep_view() == self@.target_path(),
    {
        match self {
            InstallItem::Command(item) => Some(item.target()),
            InstallItem::File(item) => Some(item.target()),
            InstallItem::Apt(item) => {
                proof {
                    item.lemma_kind();
                }
                None
            },
            InstallItem::Alias(item) => {
                proof {
                    item.lemma_kind();
                }
                None
            },
            InstallItem::Env(item) => {
                proof {
                    item.lemma_kind();
                }
                None
            },
            InstallItem::Envrc(item) => {
                proof {
                    item.lemma_kind();
                }
                None
            },
        }
    }

    /// The item in a few words, for messages.
    pub fn label(&self) -> (r: String)
        ensures
            r@ == self@.label(),
    {
        match self {
            InstallItem::Apt(item) => item.label(),
            InstallItem::Alias(item) => item.label(),
            InstallItem::Command(item) => item.label(),
            InstallItem::Env(item) => item.label(),
            InstallItem::Envrc(item) => item.label(),
            InstallItem::File(item) => item.label(),
        }
    }

    /// Whether the check needs the package index.
    pub fn uses_packages(&self) -> (r: bool)
        ensures
            r == self@.uses_packages(),
    {
        proof {
            self.lemma_kind();
        }
        match self {
            InstallItem::Apt(_) => true,
            _ => false,
        }
    }

    /// Checks the item. Nothing is changed by it.
    pub fn check(&self, apt: &AptOp, seen: Seen) -> (r: Result<(), CheckError>)
        ensures
            verdict_view(r) == self@.check(apt@.packages, seen),
    {
        match self {
            InstallItem::Apt(item) => item.check(apt),
            InstallItem::Alias(item) => item.check(),
            InstallItem::Command(item) => item.check(seen.source, seen.target),
            InstallItem::Env(item) => item.check(),
            InstallItem::Envrc(item) => item.check(seen.source),
            InstallItem::File(item) => item.check(seen.source, seen.target),
        }
    }

    /// The one effect of installing the item.
    pub fn install(&self, apt: &AptOp) -> (r: Result<Effect, CheckError>)
        ensures
            effect_view(r) == self@.effect(apt@),
    {
        match self {
            InstallItem::Apt(item) => Ok(item.install(apt)),
            InstallItem::Alias(item) => {
                proof {
                    item.lemma_kind();
                }
                Ok(Effect::Nothing)
            },
            InstallItem::Command(item) => item.install(),
            InstallItem::Env(item) => {
                proof {
                    item.lemma_kind();
                }
                Ok(Effect::Nothing)
            },
            InstallItem::Envrc(item) => item.install(),
            InstallItem::File(item) => item.install(),
        }
    }

    /// What the item leaves behind once its effect is done and gave `output`.
    pub fn installed(&self, output: &str) -> (r: Installed)
        ensures
            r@ == self@.installed(output@),
    {
        match self {
            InstallItem::Apt(item) => item.installed(),
            InstallItem::Alias(item) => item.install(),
            InstallItem::Command(item) => item.installed(),
            InstallItem::Env(item) => item.install(),
            InstallItem::Envrc(item) => item.installed(output),
            InstallItem::File(item) => item.installed(),
        }
    }

    /// The kind of the model is the kind of the item.
    pub proof fn lemma_kind(&self)
        ensures
            self is Apt <==> self@ is Apt,
            self is Alias <==> self@ is Alias,
            self is Command <==> self@ is Command,
            self is Env <==> self@ is Env,
            self is Envrc <==> self@ is Envrc,
            self is File <==> self@ is File,
    {
        match *self {
            InstallItem::Apt(item) => item.lemma_kind(),
            InstallItem::Alias(item) => item.lemma_kind(),
            InstallItem::Command(item) => item.lemma_kind(),
            InstallItem::Env(item) => item.lemma_kind(),
            InstallItem::Envrc(item) => item.lemma_kind(),
            InstallItem::File(item) => item.lemma_kind(),
        }
    }
}

} // verus!
