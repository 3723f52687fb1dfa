//! The configuration model: what one configuration document declares.
//!
//! The keyed sections (`alias`, `command`, `env`, `files`) are lists of pairs in the order
//! of declaration, so that the items made from them come in a fixed order.

use vstd::prelude::*;

verus! {

/// Where the text of a command, an rc snippet or a file comes from.
#[derive(Debug, PartialEq, Eq)]
pub enum Content {
    /// The text itself.
    Raw(String),
    /// A file, named relative to the directory of the configuration that declares it.
    File(String),
    /// A URL. Declared, but no item can be installed from one.
    Url(String),
}

/// The model of a [`Content`].
pub ghost enum ContentView {
    Raw(Seq<char>),
    File(Seq<char>),
    Url(Seq<char>),
}

impl DeepView for Content {
    type V = ContentView;

    open spec fn deep_view(&self) -> ContentView {
        match *self {
            Content::Raw(text) => ContentView::Raw(text@),
            Content::File(path) => ContentView::File(path@),
            Content::Url(url) => ContentView::Url(url@),
        }
    }
}

impl View for Content {
    type V = ContentView;

    open spec fn view(&self) -> ContentView {
        self.deep_view()
    }
}

impl Clone for Content {
    fn clone(&self) -> (r: Self)
        ensures
            r == *self,
    {
        match self {
            Content::Raw(text) => Content::Raw(text.clone()),
            Content::File(path) => Content::File(path.clone()),
            Content::Url(url) => Content::Url(url.clone()),
        }
    }
}

/// Plain text standing in for an object: `String(t)` means what `Object(Content::Raw(t))` means.
#[derive(Debug, PartialEq, Eq)]
pub enum StringOr<T> {
    String(String),
    Object(T),
}

/// The model of a [`StringOr`].
pub ghost enum StringOrView<V> {
    String(Seq<char>),
    Object(V),
}

impl<T: DeepView> DeepView for StringOr<T> {
    type V = StringOrView<T::V>;

    open spec fn deep_view(&self) -> StringOrView<T::V> {
        match *self {
            StringOr::String(text) => StringOrView::String(text@),
            StringOr::Object(object) => StringOrView::Object(object.deep_view()),
        }
    }
}

impl<T: DeepView> View for StringOr<T> {
    type V = StringOrView<T::V>;

    open spec fn view(&self) -> StringOrView<T::V> {
        self.deep_view()
    }
}

impl Clone for StringOr<Content> {
    fn clone(&self) -> (r: Self)
        ensures
            r == *self,
    {
        match self {
            StringOr::String(text) => StringOr::String(text.clone()),
            StringOr::Object(content) => StringOr::Object(content.clone()),
        }
    }
}

/// What a configuration says of itself.
#[derive(Debug, PartialEq, Eq)]
pub struct Info {
    /// The name of the configuration; its items are installed under a directory of this name.
    pub name: String,
    /// What the configuration is for.
    pub description: Option<String>,
    /// A shell command that decides whether the configuration is deployed at all.
    pub install_while: Option<String>,
}

/// The model of an [`Info`].
pub ghost struct InfoView {
    pub name: Seq<char>,
    pub description: Option<Seq<char>>,
    pub install_while: Option<Seq<char>>,
}

impl DeepView for Info {
    type V = InfoView;

    open spec fn deep_view(&self) -> InfoView {
        InfoView {
            name: self.name@,
            description: self.description.deep_view(),
            install_while: self.install_while.deep_view(),
        }
    }
}

impl View for Info {
    type V = InfoView;

    open spec fn view(&self) -> InfoView {
        self.deep_view()
    }
}

impl Default for Info {
    fn default() -> (r: Self)
        ensures
            r@ == (InfoView { name: Seq::empty(), description: None, install_while: None }),
    {
        Info { name: String::new(), description: None, install_while: None }
    }
}

/// What a configuration installs, one optional section for each kind of item.
#[derive(Debug, PartialEq, Eq)]
pub struct InstallList {
    /// Packages to install with the package manager.
    pub apt: Option<Vec<String>>,
    /// Aliases: name and the command it stands for.
    pub alias: Option<Vec<(String, String)>>,
    /// Commands: name and content.
    pub command: Option<Vec<(String, StringOr<Content>)>>,
    /// Environment variables: key and value.
    pub env: Option<Vec<(String, String)>>,
    /// Snippets for the generated profile.
    pub envrc: Option<Vec<Content>>,
    /// Files: path and content.
    pub files: Option<Vec<(String, StringOr<Content>)>>,
}

/// The model of an [`InstallList`].
pub ghost struct InstallListView {
    pub apt: Option<Seq<Seq<char>>>,
    pub alias: Option<Seq<(Seq<char>, Seq<char>)>>,
    pub command: Option<Seq<(Seq<char>, StringOrView<ContentView>)>>,
    pub env: Option<Seq<(Seq<char>, Seq<char>)>>,
    pub envrc: Option<Seq<ContentView>>,
    pub files: Option<Seq<(Seq<char>, StringOrView<ContentView>)>>,
}

/// Whether no two entries of a keyed section have the same key.
pub open spec fn distinct_keys<V>(entries: Option<Seq<(Seq<char>, V)>>) -> bool {
    match entries {
        Some(entries) => forall|i: int, j: int|
            0 <= i < j < entries.len() ==> (#[trigger] entries[i]).0 != (#[trigger] entries[j]).0,
        None => true,
    }
}

impl InstallListView {
    /// A list is well formed when each keyed section declares each of its keys once.
    pub open spec fn well_formed(self) -> bool {
        &&& distinct_keys(self.alias)
        &&& distinct_keys(self.command)
        &&& distinct_keys(self.env)
        &&& distinct_keys(self.files)
    }
}

/// Whether no two of `keys` are the same.
fn all_distinct(keys: &Vec<String>) -> (r: bool)
    ensures
        r == (forall|i: int, j: int|
            0 <= i < j < keys.len() ==> (#[trigger] keys@[i])@ != (#[trigger] keys@[j])@),
{
    let mut j: usize = 0;
    while j < keys.len()
        invariant
            j <= keys.len(),
            forall|a: int, b: int|
                0 <= a < b < j ==> (#[trigger] keys@[a])@ != (#[trigger] keys@[b])@,
        decreases keys.len() - j,
    {
        let mut i: usize = 0;
        while i < j
            invariant
                i <= j < keys.len(),
                forall|a: int| 0 <= a < i ==> (#[trigger] keys@[a])@ != keys@[j as int]@,
            decreases j - i,
        {
            if keys[i] == keys[j] {
                return false;
            }
            i += 1;
        }
        j += 1;
    }
    true
}

/// Whether no two entries of a keyed section have the same key.
fn distinct<V: DeepView>(entries: &Option<Vec<(String, V)>>) -> (r: bool)
    ensures
        r == distinct_keys(entries.deep_view()),
{
    match entries {
        Some(entries) => {
            let mut keys: Vec<String> = Vec::new();
            let mut i: usize = 0;
            while i < entries.len()
                invariant
                    i <= entries.len(),
                    keys@.len() == i,
                    forall|k: int| 0 <= k < i ==> (#[trigger] keys@[k])@ == entries@[k].0@,
                decreases entries.len() - i,
            {
                keys.push(entries[i].0.clone());
                i += 1;
            }
            let r = all_distinct(&keys);
            proof {
                let views = entries.deep_view();
                assert forall|a: int, b: int| 0 <= a < b < views.len() implies ((
                #[trigger] views[a]).0 != (#[trigger] views[b]).0) == (keys@[a]@ != keys@[b]@) by {
                    assert(views[a].0 == entries@[a].0@);
                    assert(views[b].0 == entries@[b].0@);
                }
                if r {
                    assert(distinct_keys(Some(views)));
                } else {
                    let (a, b) = choose|a: int, b: int|
                        0 <= a < b < keys.len() && (#[trigger] keys@[a])@ == (#[trigger] keys@[b])@;
                    assert(views[a].0 == views[b].0);
                }
            }
            r
        },
        None => true,
    }
}

impl InstallList {
    /// Whether each keyed section declares each of its keys once, as a table does.
    pub fn well_formed(&self) -> (r: bool)
        ensures
            r == self@.well_formed(),
    {
        distinct(&self.alias) && distinct(&self.command) && distinct(&self.env) && distinct(
            &self.files,
        )
    }
}

impl DeepView for InstallList {
    type V = InstallListView;

    open spec fn deep_view(&self) -> InstallListView {
        InstallListView {
            apt: self.apt.deep_view(),
            alias: self.alias.deep_view(),
            command: self.command.deep_view(),
            env: self.env.deep_view(),
            envrc: self.envrc.deep_view(),
            files: self.files.deep_view(),
        }
    }
}

impl View for InstallList {
    type V = InstallListView;

    open spec fn view(&self) -> InstallListView {
        self.deep_view()
    }
}

impl Default for InstallList {
    fn default() -> (r: Self)
        ensures
            r@ == (InstallListView {
                apt: None,
                alias: None,
                command: None,
                env: None,
                envrc: None,
                files: None,
            }),
    {
        InstallList { apt: None, alias: None, command: None, env: None, envrc: None, files: None }
    }
}

/// One configuration document.
#[derive(Debug, PartialEq, Eq)]
pub struct Config {
    /// What the configuration says of itself.
    pub infomation: Info,
    /// What it installs.
    pub install: InstallList,
}

/// The model of a [`Config`].
pub ghost struct ConfigView {
    pub infomation: InfoView,
    pub install: InstallListView,
}

impl DeepView for Config {
    type V = ConfigView;

    open spec fn deep_view(&self) -> ConfigView {
        ConfigView { infomation: self.infomation@, install: self.install@ }
    }
}

impl View for Config {
    type V = ConfigView;

    open spec fn view(&self) -> ConfigView {
        self.deep_view()
    }
}

impl Default for Config {
    fn default() -> (r: Self)
        ensures
            r@.infomation == (InfoView {
                name: Seq::empty(),
                description: None,
                install_while: None,
            }),
            r@.install == (InstallListView {
                apt: None,
                alias: None,
                command: None,
                env: None,
                envrc: None,
                files: None,
            }),
    {
        Config { infomation: Info::default(), install: InstallList::default() }
    }
}

/// Several configurations in one document.
#[derive(Debug, PartialEq, Eq)]
pub struct ConfigList {
    pub configs: Vec<Config>,
}

impl DeepView for ConfigList {
    type V = Seq<ConfigView>;

    open spec fn deep_view(&self) -> Seq<ConfigView> {
        self.configs.deep_view()
    }
}

impl View for ConfigList {
    type V = Seq<ConfigView>;

    open spec fn view(&self) -> Seq<ConfigView> {
        self.deep_view()
    }
}

impl Default for ConfigList {
    fn default() -> (r: Self)
        ensures
            r@ == Seq::<ConfigView>::empty(),
    {
        ConfigList { configs: Vec::new() }
    }
}

} // verus!
