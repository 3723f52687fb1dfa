//! The deployer: from configurations to the ordered list of items that one run installs.
//!
//! Whether a configuration is deployed at all may hang on a shell command of its own, its
//! predicate. The library names that command; the caller runs it and says how it ended.

use crate::deploy::alias::Alias;
use crate::deploy::apt::Apt;
use crate::deploy::command::Command;
use crate::deploy::env::Env;
use crate::deploy::envrc::Envrc;
use crate::deploy::file::File;
use crate::deploy::{InstallItem, ItemView};
use crate::path::{directory_of, join_path, joined, path_parent};
use crate::program::{CommandLine, CommandLineView};
use crate::types::config::{
    Config, ConfigView, Content, ContentView, InfoView, StringOr, StringOrView,
};
use vstd::prelude::*;

verus! {

/// The name of the deploy root, under the user's home directory.
pub const DEPLOY_DIR: &'static str = ".distro";

/// The name of the shell startup file, under the user's home directory.
pub const STARTUP_FILE: &'static str = ".bashrc";

/// The name of the generated profile, under the deploy root.
pub const PROFILE_FILE: &'static str = "allrc";

/// A configuration and the file that it was read from.
#[derive(Debug, PartialEq, Eq)]
pub struct ConfigInfo {
    pub file: String,
    pub config: Config,
}

/// The model of a [`ConfigInfo`].
pub ghost struct ConfigInfoView {
    pub file: Seq<char>,
    pub config: ConfigView,
}

impl DeepView for ConfigInfo {
    type V = ConfigInfoView;

    open spec fn deep_view(&self) -> ConfigInfoView {
        ConfigInfoView { file: self.file@, config: self.config@ }
    }
}

impl View for ConfigInfo {
    type V = ConfigInfoView;

    open spec fn view(&self) -> ConfigInfoView {
        self.deep_view()
    }
}

/// An item and the configuration file that declared it.
#[derive(Debug, PartialEq, Eq)]
pub struct InstallInfo {
    pub config_file: String,
    pub install_items: InstallItem,
}

/// The model of an [`InstallInfo`].
pub ghost struct InstallInfoView {
    pub config_file: Seq<char>,
    pub item: ItemView,
}

impl DeepView for InstallInfo {
    type V = InstallInfoView;

    open spec fn deep_view(&self) -> InstallInfoView {
        InstallInfoView { config_file: self.config_file@, item: self.install_items@ }
    }
}

impl View for InstallInfo {
    type V = InstallInfoView;

    open spec fn view(&self) -> InstallInfoView {
        self.deep_view()
    }
}

/// The items of the `apt` section, in its order.
pub open spec fn apt_items(names: Option<Seq<Seq<char>>>) -> Seq<ItemView> {
    match names {
        Some(names) => Seq::new(names.len(), |i: int| ItemView::Apt { name: names[i] }),
        None => Seq::empty(),
    }
}

/// The items of the `alias` section, in its order.
pub open spec fn alias_items(pairs: Option<Seq<(Seq<char>, Seq<char>)>>) -> Seq<ItemView> {
    match pairs {
        Some(pairs) => Seq::new(
            pairs.len(),
            |i: int| ItemView::Alias { name: pairs[i].0, command: pairs[i].1 },
        ),
        None => Seq::empty(),
    }
}

/// The items of the `command` section, in its order; each is installed into `bin_dir`.
pub open spec fn command_items(
    entries: Option<Seq<(Seq<char>, StringOrView<ContentView>)>>,
    config_dir: Seq<char>,
    bin_dir: Seq<char>,
) -> Seq<ItemView> {
    match entries {
        Some(entries) => Seq::new(
            entries.len(),
            |i: int|
                ItemView::Command {
                    name: entries[i].0,
                    content: entries[i].1,
                    config_dir,
                    bin_dir,
                    target: joined(bin_dir, entries[i].0),
                },
        ),
        None => Seq::empty(),
    }
}

/// The items of the `env` section, in its order.
pub open spec fn env_items(pairs: Option<Seq<(Seq<char>, Seq<char>)>>) -> Seq<ItemView> {
    match pairs {
        Some(pairs) => Seq::new(
            pairs.len(),
            |i: int| ItemView::Env { key: pairs[i].0, value: pairs[i].1 },
        ),
        None => Seq::empty(),
    }
}

/// The items of the `envrc` section, in its order.
pub open spec fn envrc_items(contents: Option<Seq<ContentView>>, config_dir: Seq<char>) -> Seq<
    ItemView,
> {
    match contents {
        Some(contents) => Seq::new(
            contents.len(),
            |i: int| ItemView::Envrc { content: contents[i], config_dir },
        ),
        None => Seq::empty(),
    }
}

/// The items of the `files` section, in its order; a relative path is taken under
/// `install_dir`, an absolute one as it stands.
pub open spec fn file_items(
    entries: Option<Seq<(Seq<char>, StringOrView<ContentView>)>>,
    config_dir: Seq<char>,
    install_dir: Seq<char>,
) -> Seq<ItemView> {
    match entries {
        Some(entries) => Seq::new(
            entries.len(),
            |i: int|
                ItemView::File {
                    content: entries[i].1,
                    config_dir,
                    target: joined(install_dir, entries[i].0),
                },
        ),
        None => Seq::empty(),
    }
}

/// The items of one configuration: the six sections in the order apt, alias, command, env,
/// envrc, files, each in its own order, one item for each entry.
pub open spec fn expand(config: ConfigView, config_dir: Seq<char>, install_dir: Seq<char>) -> Seq<
    ItemView,
> {
    apt_items(config.install.apt) + alias_items(config.install.alias) + command_items(
        config.install.command,
        config_dir,
        joined(install_dir, "bin"@),
    ) + env_items(config.install.env) + envrc_items(config.install.envrc, config_dir)
        + file_items(config.install.files, config_dir, install_dir)
}

/// The command that decides a predicate: `bash -c` with its text.
pub open spec fn predicate_of(info: InfoView) -> Option<CommandLineView> {
    match info.install_while {
        Some(test) => Some(
            CommandLineView { program: "bash"@, args: seq!["-c"@, test], envs: Seq::empty() },
        ),
        None => None,
    }
}

/// Whether the configuration at place `i` is deployed: it has no predicate, or its
/// predicate passed. A predicate whose command ended with a failure, could not be started,
/// or has no entry in `passed`, did not pass.
pub open spec fn admitted(info: InfoView, passed: Seq<bool>, i: int) -> bool {
    info.install_while is None || (0 <= i < passed.len() && passed[i])
}

/// The directory of a configuration file: its parent, or `.` where it has none.
pub open spec fn config_dir_of(file: Seq<char>) -> Seq<char> {
    match path_parent(file) {
        Some(parent) => parent,
        None => seq!['.'],
    }
}

/// What the configuration at place `i` adds to the run: nothing where it is not admitted,
/// else its items, each with the file that declared it. Its install root is the directory
/// of its name under `root`.
pub open spec fn contribution(info: ConfigInfoView, passed: Seq<bool>, i: int, root: Seq<char>) -> Seq<
    InstallInfoView,
> {
    if admitted(info.config.infomation, passed, i) {
        expand(
            info.config,
            config_dir_of(info.file),
            joined(root, info.config.infomation.name),
        ).map_values(|item: ItemView| InstallInfoView { config_file: info.file, item })
    } else {
        Seq::empty()
    }
}

/// What the first `n` configurations add to the run, in their order.
pub open spec fn contributions(
    configs: Seq<ConfigInfoView>,
    passed: Seq<bool>,
    root: Seq<char>,
    n: int,
) -> Seq<InstallInfoView>
    decreases n,
{
    if n <= 0 {
        Seq::empty()
    } else {
        contributions(configs, passed, root, n - 1) + contribution(
            configs[n - 1],
            passed,
            n - 1,
            root,
        )
    }
}

/// A configuration whose predicate did not pass adds no item to the run, and a
/// configuration without a predicate adds all of its items, whatever `passed` holds.
pub proof fn lemma_predicate_decides(
    info: ConfigInfoView,
    passed: Seq<bool>,
    i: int,
    root: Seq<char>,
)
    ensures
        info.config.infomation.install_while is Some && !(0 <= i < passed.len() && passed[i])
            ==> contribution(info, passed, i, root) == Seq::<InstallInfoView>::empty(),
        info.config.infomation.install_while is None ==> contribution(
            info,
            passed,
            i,
            root,
        ).map_values(|added: InstallInfoView| added.item) == expand(
            info.config,
            config_dir_of(info.file),
            joined(root, info.config.infomation.name),
        ),
{
    if info.config.infomation.install_while is None {
        let items = expand(
            info.config,
            config_dir_of(info.file),
            joined(root, info.config.infomation.name),
        );
        assert(contribution(info, passed, i, root).map_values(|added: InstallInfoView| added.item)
            =~= items);
    }
}

/// A deployment: the items to install, in order, and where they go.
#[derive(Debug, PartialEq, Eq)]
pub struct Deployer {
    pub(crate) config_list: Vec<ConfigInfo>,
    pub(crate) install_dir: String,
    pub(crate) startup_file: String,
    pub(crate) installers: Vec<InstallInfo>,
}

/// The model of a [`Deployer`].
pub ghost struct DeployerView {
    /// The deploy root.
    pub install_dir: Seq<char>,
    /// The shell startup file.
    pub startup_file: Seq<char>,
    /// The items to install, in order.
    pub installers: Seq<InstallInfoView>,
}

impl DeepView for Deployer {
    type V = DeployerView;

    closed spec fn deep_view(&self) -> DeployerView {
        DeployerView {
            install_dir: self.install_dir@,
            startup_file: self.startup_file@,
            installers: self.installers.deep_view(),
        }
    }
}

impl View for Deployer {
    type V = DeployerView;

    open spec fn view(&self) -> DeployerView {
        self.deep_view()
    }
}

fn apt_section(names: &Option<Vec<String>>) -> (items: Vec<InstallItem>)
    ensures
        items.deep_view() == apt_items(names.deep_view()),
{
    let mut items: Vec<InstallItem> = Vec::new();
    if let Some(names) = names {
        let mut i: usize = 0;
        while i < names.len()
            invariant
                i <= names.len(),
                items@.len() == i,
                forall|k: int|
                    0 <= k < i ==> (#[trigger] items@[k])@ == (ItemView::Apt {
                        name: names@[k]@,
                    }),
            decreases names.len() - i,
        {
            items.push(InstallItem::Apt(Apt::from_sw(names[i].as_str())));
            i += 1;
        }
    }
    assert(items.deep_view() =~= apt_items(names.deep_view()));
    items
}

fn alias_section(pairs: &Option<Vec<(String, String)>>) -> (items: Vec<InstallItem>)
    ensures
        items.deep_view() == alias_items(pairs.deep_view()),
{
    let mut items: Vec<InstallItem> = Vec::new();
    if let Some(pairs) = pairs {
        let mut i: usize = 0;
        while i < pairs.len()
            invariant
                i <= pairs.len(),
                items@.len() == i,
                forall|k: int|
                    0 <= k < i ==> (#[trigger] items@[k])@ == (ItemView::Alias {
                        name: pairs@[k].0@,
                        command: pairs@[k].1@,
                    }),
            decreases pairs.len() - i,
        {
            items.push(
                InstallItem::Alias(Alias::from_pair(pairs[i].0.as_str(), pairs[i].1.as_str())),
            );
            i += 1;
        }
    }
    assert(items.deep_view() =~= alias_items(pairs.deep_view()));
    items
}

fn command_section(
    entries: &Option<Vec<(String, StringOr<Content>)>>,
    config_path: &str,
    bin_path: &str,
) -> (items: Vec<InstallItem>)
    ensures
        items.deep_view() == command_items(entries.deep_view(), config_path@, bin_path@),
{
    let mut items: Vec<InstallItem> = Vec::new();
    if let Some(entries) = entries {
        let mut i: usize = 0;
        while i < entries.len()
            invariant
                i <= entries.len(),
                items@.len() == i,
                forall|k: int|
                    0 <= k < i ==> (#[trigger] items@[k])@ == (ItemView::Command {
                        name: entries@[k].0@,
                        content: entries@[k].1@,
                        config_dir: config_path@,
                        bin_dir: bin_path@,
                        target: joined(bin_path@, entries@[k].0@),
                    }),
            decreases entries.len() - i,
        {
            items.push(
                InstallItem::Command(
                    Command::from_content(
                        entries[i].0.as_str(),
                        &entries[i].1,
                        config_path,
                        bin_path,
                    ),
                ),
            );
            i += 1;
        }
    }
    assert(items.deep_view() =~= command_items(entries.deep_view(), config_path@, bin_path@));
    items
}

fn env_section(pairs: &Option<Vec<(String, String)>>) -> (items: Vec<InstallItem>)
    ensures
        items.deep_view() == env_items(pairs.deep_view()),
{
    let mut items: Vec<InstallItem> = Vec::new();
    if let Some(pairs) = pairs {
        let mut i: usize = 0;
        while i < pairs.len()
            invariant
                i <= pairs.len(),
                items@.len() == i,
                forall|k: int|
                    0 <= k < i ==> (#[trigger] items@[k])@ == (ItemView::Env {
                        key: pairs@[k].0@,
                        value: pairs@[k].1@,
                    }),
            decreases pairs.len() - i,
        {
            items.push(InstallItem::Env(Env::from_kv(pairs[i].0.as_str(), pairs[i].1.as_str())));
            i += 1;
        }
    }
    assert(items.deep_view() =~= env_items(pairs.deep_view()));
    items
}

fn envrc_section(contents: &Option<Vec<Content>>, config_path: &str) -> (items: Vec<InstallItem>)
    ensures
        items.deep_view() == envrc_items(contents.deep_view(), config_path@),
{
    let mut items: Vec<InstallItem> = Vec::new();
    if let Some(contents) = contents {
        let mut i: usize = 0;
        while i < contents.len()
            invariant
                i <= contents.len(),
                items@.len() == i,
                forall|k: int|
                    0 <= k < i ==> (#[trigger] items@[k])@ == (ItemView::Envrc {
                        content: contents@[k]@,
                        config_dir: config_path@,
                    }),
            decreases contents.len() - i,
        {
            items.push(InstallItem::Envrc(Envrc::from_content(&contents[i], config_path)));
            i += 1;
        }
    }
    assert(items.deep_view() =~= envrc_items(contents.deep_view(), config_path@));
    items
}

fn file_section(
    entries: &Option<Vec<(String, StringOr<Content>)>>,
    config_path: &str,
    install_path: &str,
) -> (items: Vec<InstallItem>)
    ensures
        items.deep_view() == file_items(entries.deep_view(), config_path@, install_path@),
{
    let mut items: Vec<InstallItem> = Vec::new();
    if let Some(entries) = entries {
        let mut i: usize = 0;
        while i < entries.len()
            invariant
                i <= entries.len(),
                items@.len() == i,
                forall|k: int|
                    0 <= k < i ==> (#[trigger] items@[k])@ == (ItemView::File {
                        content: entries@[k].1@,
                        config_dir: config_path@,
                        target: joined(install_path@, entries@[k].0@),
                    }),
            decreases entries.len() - i,
        {
            items.push(
                InstallItem::File(
                    File::from_content(
                        entries[i].0.as_str(),
                        &entries[i].1,
                        config_path,
                        install_path,
                    ),
                ),
            );
            i += 1;
        }
    }
    assert(items.deep_view() =~= file_items(entries.deep_view(), config_path@, install_path@));
    items
}

/// Adds `items` to `installers`, in their order, each with the file that declared it.
fn tag(items: Vec<InstallItem>, file: &str, installers: &mut Vec<InstallInfo>)
    ensures
        final(installers).deep_view() == old(installers).deep_view() + items.deep_view().map_values(
            |item: ItemView| InstallInfoView { config_file: file@, item },
        ),
{
    let ghost given = items@;
    let ghost given_views = items.deep_view();
    let ghost before = installers@;
    let mut rest = items;
    let mut stack: Vec<InstallItem> = Vec::new();
    while rest.len() > 0
        invariant
            stack@.len() + rest@.len() == given.len(),
            rest@ == given.take(rest@.len() as int),
            forall|k: int| 0 <= k < stack@.len() ==> stack@[k] == given[given.len() - 1 - k],
        decreases rest.len(),
    {
        let item = rest.pop().unwrap();
        stack.push(item);
    }
    while stack.len() > 0
        invariant
            stack@.len() <= given.len(),
            forall|k: int| 0 <= k < stack@.len() ==> stack@[k] == given[given.len() - 1 - k],
            installers@.len() == before.len() + given.len() - stack@.len(),
            forall|k: int| 0 <= k < before.len() ==> installers@[k] == before[k],
            forall|k: int|
                0 <= k < given.len() - stack@.len() ==> (#[trigger] installers@[before.len() + k])@
                    == (InstallInfoView { config_file: file@, item: given[k]@ }),
        decreases stack.len(),
    {
        let item = stack.pop().unwrap();
        installers.push(InstallInfo { config_file: file.to_owned(), install_items: item });
    }
    let ghost tagged = given_views.map_values(
        |item: ItemView| InstallInfoView { config_file: file@, item },
    );
    assert forall|i: int| 0 <= i < installers@.len() implies installers.deep_view()[i] == (
    old(installers).deep_view() + tagged)[i] by {
        if i >= before.len() {
            let k = i - before.len();
            assert(installers@[before.len() + k]@ == (InstallInfoView {
                config_file: file@,
                item: given[k]@,
            }));
            assert(given_views[k] == given[k]@);
        }
    }
    assert(installers.deep_view() =~= old(installers).deep_view() + tagged);
}

impl Deployer {
    /// The model of a deployer, field by field.
    pub(crate) proof fn lemma_view(&self)
        ensures
            self@.install_dir == self.install_dir@,
            self@.startup_file == self.startup_file@,
            self@.installers == self.installers.deep_view(),
    {
    }

    /// The deploy root of the user whose home directory is `home`.
    pub fn deploy_dir(home: &str) -> (r: String)
        ensures
            r@ == joined(home@, DEPLOY_DIR@),
    {
        join_path(home, DEPLOY_DIR)
    }

    /// The command that decides whether a configuration is deployed, where it has one.
    pub fn predicate(config: &Config) -> (r: Option<CommandLine>)
        ensures
            r.deep_view() == predicate_of(config@.infomation),
    {
        match &config.infomation.install_while {
            Some(test) => {
                let mut args: Vec<String> = Vec::new();
                args.push("-c".to_owned());
                args.push(test.clone());
                let command = CommandLine { program: "bash".to_owned(), args, envs: Vec::new() };
                assert(command@.args =~= seq!["-c"@, test@]);
                assert(command@.envs =~= Seq::empty());
                Some(command)
            },
            None => None,
        }
    }

    /// Expands one configuration into its items, in the fixed order of the sections.
    /// `config_path` is the directory of the configuration's file, `install_path` its
    /// install root.
    pub fn dispath_config(config: &Config, config_path: &str, install_path: &str) -> (items: Vec<
        InstallItem,
    >)
        ensures
            items.deep_view() == expand(config@, config_path@, install_path@),
    {
        let bin_path = join_path(install_path, "bin");
        let mut items = apt_section(&config.install.apt);
        let mut alias = alias_section(&config.install.alias);
        let mut command = command_section(&config.install.command, config_path, bin_path.as_str());
        let mut env = env_section(&config.install.env);
        let mut envrc = envrc_section(&config.install.envrc, config_path);
        let mut files = file_section(&config.install.files, config_path, install_path);
        let ghost apt_part = items.deep_view();
        let ghost alias_part = alias.deep_view();
        let ghost command_part = command.deep_view();
        let ghost env_part = env.deep_view();
        let ghost envrc_part = envrc.deep_view();
        let ghost files_part = files.deep_view();
        items.append(&mut alias);
        assert(items.deep_view() =~= apt_part + alias_part);
        items.append(&mut command);
        assert(items.deep_view() =~= apt_part + alias_part + command_part);
        items.append(&mut env);
        assert(items.deep_view() =~= apt_part + alias_part + command_part + env_part);
        items.append(&mut envrc);
        assert(items.deep_view() =~= apt_part + alias_part + command_part + env_part + envrc_part);
        items.append(&mut files);
        assert(items.deep_view() =~= apt_part + alias_part + command_part + env_part + envrc_part
            + files_part);
        items
    }

    /// Makes the deployment of the user whose home directory is `home` from the
    /// configurations `configs`, in their order. `passed` says for each place in `configs`
    /// whether the predicate of the configuration there passed; what it says of a
    /// configuration without a predicate does not count.
    ///
    /// A configuration whose predicate did not pass adds no item; every other adds all of
    /// its items, in the order of `expand`.
    pub fn from_list(configs: Vec<ConfigInfo>, passed: &Vec<bool>, home: &str) -> (r: Self)
        ensures
            r@.install_dir == joined(home@, DEPLOY_DIR@),
            r@.startup_file == joined(home@, STARTUP_FILE@),
            r@.installers == contributions(
                configs.deep_view(),
                passed@,
                joined(home@, DEPLOY_DIR@),
                configs.len() as int,
            ),
    {
        let install_dir = Self::deploy_dir(home);
        let startup_file = join_path(home, STARTUP_FILE);
        let mut installers: Vec<InstallInfo> = Vec::new();
        let mut n: usize = 0;
        while n < configs.len()
            invariant
                n <= configs.len(),
                install_dir@ == joined(home@, DEPLOY_DIR@),
                installers.deep_view() == contributions(
                    configs.deep_view(),
                    passed@,
                    install_dir@,
                    n as int,
                ),
            decreases configs.len() - n,
        {
            let info = &configs[n];
            let ghost before = installers.deep_view();
            let included = match &info.config.infomation.install_while {
                Some(_) => n < passed.len() && passed[n],
                None => true,
            };
            assert(included == admitted(info@.config.infomation, passed@, n as int));
            assert(configs.deep_view()[n as int] == info@);
            if included {
                let config_path = directory_of(info.file.as_str());
                let install_path = join_path(
                    install_dir.as_str(),
                    info.config.infomation.name.as_str(),
                );
                let items = Self::dispath_config(
                    &info.config,
                    config_path.as_str(),
                    install_path.as_str(),
                );
                tag(items, info.file.as_str(), &mut installers);
            }
            assert(installers.deep_view() == before + contribution(
                info@,
                passed@,
                n as int,
                install_dir@,
            ));
            n += 1;
        }
        Deployer { config_list: configs, install_dir, startup_file, installers }
    }
}

} // verus!
