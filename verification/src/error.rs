//! What can go wrong before and while a deployment is applied.

use crate::text::chain;
use vstd::prelude::*;
use vstd::string::StringExecFns;

verus! {

/// Why an item did not pass its check. Each reason names the identifier or the path at fault.
#[derive(Debug, PartialEq, Eq)]
pub enum CheckError {
    /// The name of an alias, an environment variable or a command is outside the grammar.
    InvalidName(String),
    /// The file that the content names does not exist.
    MissingSource(String),
    /// The content names a source that nothing can be installed from.
    UnsupportedSource(String),
    /// The place where the item would be written is a directory.
    TargetIsDirectory(String),
    /// The package manager knows no package of this name.
    UnknownPackage(String),
    /// The index of the packages could not be had; the text says why.
    PackageIndex(String),
}

/// The model of a [`CheckError`].
pub ghost enum CheckErrorView {
    InvalidName(Seq<char>),
    MissingSource(Seq<char>),
    UnsupportedSource(Seq<char>),
    TargetIsDirectory(Seq<char>),
    UnknownPackage(Seq<char>),
    PackageIndex(Seq<char>),
}

impl CheckErrorView {
    /// The reason in words.
    pub open spec fn message(self) -> Seq<char> {
        match self {
            CheckErrorView::InvalidName(name) => name
                + ": a name only allows letters, numbers, underscores(_), and hyphens(-)"@,
            CheckErrorView::MissingSource(path) => path + " is not exist"@,
            CheckErrorView::UnsupportedSource(url) => url + ": unsupported content source"@,
            CheckErrorView::TargetIsDirectory(path) => path + " is a directory"@,
            CheckErrorView::UnknownPackage(name) => "Can not find package: "@ + name,
            CheckErrorView::PackageIndex(reason) => "Fail to list the packages: "@ + reason,
        }
    }
}

impl DeepView for CheckError {
    type V = CheckErrorView;

    open spec fn deep_view(&self) -> CheckErrorView {
        match *self {
            CheckError::InvalidName(name) => CheckErrorView::InvalidName(name@),
            CheckError::MissingSource(path) => CheckErrorView::MissingSource(path@),
            CheckError::UnsupportedSource(url) => CheckErrorView::UnsupportedSource(url@),
            CheckError::TargetIsDirectory(path) => CheckErrorView::TargetIsDirectory(path@),
            CheckError::UnknownPackage(name) => CheckErrorView::UnknownPackage(name@),
            CheckError::PackageIndex(reason) => CheckErrorView::PackageIndex(reason@),
        }
    }
}

impl View for CheckError {
    type V = CheckErrorView;

    open spec fn view(&self) -> CheckErrorView {
        self.deep_view()
    }
}

impl CheckError {
    /// The reason in words.
    pub fn message(&self) -> (r: String)
        ensures
            r@ == self@.message(),
    {
        match self {
            CheckError::InvalidName(name) => chain(
                name.as_str(),
                ": a name only allows letters, numbers, underscores(_), and hyphens(-)",
            ),
            CheckError::MissingSource(path) => chain(path.as_str(), " is not exist"),
            CheckError::UnsupportedSource(url) => chain(
                url.as_str(),
                ": unsupported content source",
            ),
            CheckError::TargetIsDirectory(path) => chain(path.as_str(), " is a directory"),
            CheckError::UnknownPackage(name) => chain("Can not find package: ", name.as_str()),
            CheckError::PackageIndex(reason) => chain(
                "Fail to list the packages: ",
                reason.as_str(),
            ),
        }
    }
}

/// Why a filesystem operation cannot be done as asked.
#[derive(Debug, PartialEq, Eq)]
pub enum FileError {
    /// The path exists and is no directory, where a directory is needed.
    NotADirectory(String),
    /// The path has no final component to name a copy after.
    NoFileName(String),
}

/// The model of a [`FileError`].
pub ghost enum FileErrorView {
    NotADirectory(Seq<char>),
    NoFileName(Seq<char>),
}

impl FileErrorView {
    /// The reason in words.
    pub open spec fn message(self) -> Seq<char> {
        match self {
            FileErrorView::NotADirectory(path) => path + " is not a directory"@,
            FileErrorView::NoFileName(path) => path + " has no file name"@,
        }
    }
}

impl DeepView for FileError {
    type V = FileErrorView;

    open spec fn deep_view(&self) -> FileErrorView {
        match *self {
            FileError::NotADirectory(path) => FileErrorView::NotADirectory(path@),
            FileError::NoFileName(path) => FileErrorView::NoFileName(path@),
        }
    }
}

impl View for FileError {
    type V = FileErrorView;

    open spec fn view(&self) -> FileErrorView {
        self.deep_view()
    }
}

impl FileError {
    /// The reason in words.
    pub fn message(&self) -> (r: String)
        ensures
            r@ == self@.message(),
    {
        match self {
            FileError::NotADirectory(path) => chain(path.as_str(), " is not a directory"),
            FileError::NoFileName(path) => chain(path.as_str(), " has no file name"),
        }
    }
}

/// Why a deployment ended without success.
#[derive(Debug, PartialEq, Eq)]
pub enum DeployError {
    /// An item did not pass its check. Nothing was changed.
    Validation { config_file: String, item: String, reason: CheckError },
    /// Something that is no directory stands in the place of the deploy root. Nothing was
    /// changed.
    Root(String),
    /// An item could not be installed. What was installed before it stays.
    Apply { config_file: String, item: String, cause: String },
    /// The profile could not be written.
    Profile(String),
    /// The startup file could not be read or written.
    Startup(String),
    /// The deploy root could not be removed.
    Remove(String),
    /// A reply did not answer the request before it, or came when the run was over.
    Protocol,
}

/// The model of a [`DeployError`].
pub ghost enum DeployErrorView {
    Validation { config_file: Seq<char>, item: Seq<char>, reason: CheckErrorView },
    Root(Seq<char>),
    Apply { config_file: Seq<char>, item: Seq<char>, cause: Seq<char> },
    Profile(Seq<char>),
    Startup(Seq<char>),
    Remove(Seq<char>),
    Protocol,
}

impl DeployErrorView {
    /// Whether the error says that the deployment was turned down before anything was changed.
    pub open spec fn rejects(self) -> bool {
        self is Validation || self is Root
    }

    /// The error in words, with the configuration file and the item where it has them.
    pub open spec fn message(self) -> Seq<char> {
        match self {
            DeployErrorView::Validation { config_file, item, reason } => config_file + " -> "@
                + item + " checking fail: "@ + reason.message(),
            DeployErrorView::Root(path) => path + " is not a directory"@,
            DeployErrorView::Apply { config_file, item, cause } => "Fail to install item: "@
                + config_file + " -> "@ + item + ": "@ + cause,
            DeployErrorView::Profile(reason) => "Fail to create file: "@ + reason,
            DeployErrorView::Startup(reason) => "Fail to setup the startup file: "@ + reason,
            DeployErrorView::Remove(reason) => "Fail to remove: "@ + reason,
            DeployErrorView::Protocol => "a reply came that answers no request"@,
        }
    }
}

impl DeepView for DeployError {
    type V = DeployErrorView;

    open spec fn deep_view(&self) -> DeployErrorView {
        match *self {
            DeployError::Validation { config_file, item, reason } => DeployErrorView::Validation {
                config_file: config_file@,
                item: item@,
                reason: reason@,
            },
            DeployError::Root(path) => DeployErrorView::Root(path@),
            DeployError::Apply { config_file, item, cause } => DeployErrorView::Apply {
                config_file: config_file@,
                item: item@,
                cause: cause@,
            },
            DeployError::Profile(reason) => DeployErrorView::Profile(reason@),
            DeployError::Startup(reason) => DeployErrorView::Startup(reason@),
            DeployError::Remove(reason) => DeployErrorView::Remove(reason@),
            DeployError::Protocol => DeployErrorView::Protocol,
        }
    }
}

impl View for DeployError {
    type V = DeployErrorView;

    open spec fn view(&self) -> DeployErrorView {
        self.deep_view()
    }
}

impl DeployError {
    /// The error in words.
    pub fn message(&self) -> (r: String)
        ensures
            r@ == self@.message(),
    {
        match self {
            DeployError::Validation { config_file, item, reason } => {
                let mut r = chain(config_file.as_str(), " -> ");
                r.append(item.as_str());
                r.append(" checking fail: ");
                r.append(reason.message().as_str());
                r
            },
            DeployError::Root(path) => chain(path.as_str(), " is not a directory"),
            DeployError::Apply { config_file, item, cause } => {
                let mut r = chain("Fail to install item: ", config_file.as_str());
                r.append(" -> ");
                r.append(item.as_str());
                r.append(": ");
                r.append(cause.as_str());
                r
            },
            DeployError::Profile(reason) => chain("Fail to create file: ", reason.as_str()),
            DeployError::Startup(reason) => chain(
                "Fail to setup the startup file: ",
                reason.as_str(),
            ),
            DeployError::Remove(reason) => chain("Fail to remove: ", reason.as_str()),
            DeployError::Protocol => "a reply came that answers no request".to_owned(),
        }
    }
}

} // verus!
