//! The package manager: the commands to run it with, and the index of the packages it knows.

use crate::error::{CheckError, CheckErrorView};
use crate::program::{CommandLine, CommandLineView};
use crate::text::{chars_of, find, find_from, lemma_find_from, push_range};
use vstd::prelude::*;

verus! {

/// The names in a listing of packages: of each line that holds a `/`, what stands before
/// the first one. `from` is where the next line starts.
pub open spec fn names_from(text: Seq<char>, from: int) -> Seq<Seq<char>>
    decreases text.len() - from,
{
    if from < 0 || from >= text.len() {
        Seq::empty()
    } else {
        let end = line_end(text, from);
        proof {
            lemma_find_from(text, seq!['\n'], from);
        }
        if end < text.len() {
            name_in_line(text, from, end) + names_from(text, end + 1)
        } else {
            name_in_line(text, from, end)
        }
    }
}

/// Where the line that starts at `from` ends: at the next line break, or at the end of the text.
pub open spec fn line_end(text: Seq<char>, from: int) -> int {
    match find_from(text, seq!['\n'], from) {
        Some(end) => end,
        None => text.len() as int,
    }
}

/// The name that the line `text[from..end]` lists, as a sequence of one, or of none.
pub open spec fn name_in_line(text: Seq<char>, from: int, end: int) -> Seq<Seq<char>> {
    match find_from(text, seq!['/'], from) {
        Some(slash) => if slash < end {
            seq![text.subrange(from, slash)]
        } else {
            Seq::empty()
        },
        None => Seq::empty(),
    }
}

/// The names in a listing of packages.
pub open spec fn listed_names(text: Seq<char>) -> Seq<Seq<char>> {
    names_from(text, 0)
}

/// Reads the names out of a listing of packages.
pub fn parse_list(output: &str) -> (names: Vec<String>)
    ensures
        names.deep_view() == listed_names(output@),
{
    let text = chars_of(output);
    let mut newline: Vec<char> = Vec::new();
    newline.push('\n');
    let mut slash: Vec<char> = Vec::new();
    slash.push('/');
    assert(newline@ == seq!['\n']);
    assert(slash@ == seq!['/']);
    let mut names: Vec<String> = Vec::new();
    let mut from: usize = 0;
    while from < text.len()
        invariant
            text@ == output@,
            newline@ == seq!['\n'],
            slash@ == seq!['/'],
            listed_names(output@) == names.deep_view() + names_from(text@, from as int),
        decreases text.len() - from,
    {
        let end: usize = match find(&text, &newline, from) {
            Some(end) => end,
            None => text.len(),
        };
        proof {
            lemma_find_from(text@, newline@, from as int);
        }
        assert(end as int == line_end(text@, from as int));
        assert(from <= end <= text.len());
        let ghost before = names.deep_view();
        match find(&text, &slash, from) {
            Some(at) => {
                proof {
                    lemma_find_from(text@, slash@, from as int);
                }
                if at < end {
                    let mut name = String::new();
                    push_range(&mut name, &text, from, at);
                    names.push(name);
                    assert(names.deep_view() =~= before + seq![text@.subrange(
                        from as int,
                        at as int,
                    )]);
                }
            },
            None => {},
        }
        assert(names.deep_view() =~= before + name_in_line(text@, from as int, end as int));
        if end == text.len() {
            from = end;
        } else {
            from = end + 1;
        }
        assert(listed_names(output@) =~= names.deep_view() + names_from(text@, from as int));
    }
    assert(names_from(text@, from as int) =~= Seq::<Seq<char>>::empty());
    names
}

/// The package manager as one run sees it: where its program is, and which packages it knows.
#[derive(Debug, PartialEq, Eq)]
pub struct AptOp {
    apt_path: String,
    list: Vec<String>,
}

/// The model of an [`AptOp`].
pub ghost struct AptOpView {
    /// The path of the package manager's program.
    pub apt_path: Seq<char>,
    /// The names of the packages that it knows.
    pub packages: Set<Seq<char>>,
}

impl AptOpView {
    /// `apt update`: refreshes what the package manager knows.
    pub open spec fn update(self) -> CommandLineView {
        CommandLineView { program: self.apt_path, args: seq!["update"@], envs: Seq::empty() }
    }

    /// `apt list`: lists the packages that the package manager knows.
    pub open spec fn list(self) -> CommandLineView {
        CommandLineView { program: self.apt_path, args: seq!["list"@], envs: Seq::empty() }
    }

    /// `apt install -y name`, told not to ask questions.
    pub open spec fn install(self, name: Seq<char>) -> CommandLineView {
        CommandLineView {
            program: self.apt_path,
            args: seq!["install"@, "-y"@, name],
            envs: seq![("DEBIAN_FRONTEND"@, "noninteractive"@)],
        }
    }

    /// `apt remove -y --autoremove --purge name`.
    pub open spec fn remove(self, name: Seq<char>) -> CommandLineView {
        CommandLineView {
            program: self.apt_path,
            args: seq!["remove"@, "-y"@, "--autoremove"@, "--purge"@, name],
            envs: Seq::empty(),
        }
    }
}

impl DeepView for AptOp {
    type V = AptOpView;

    closed spec fn deep_view(&self) -> AptOpView {
        AptOpView { apt_path: self.apt_path@, packages: self.list.deep_view().to_set() }
    }
}

impl View for AptOp {
    type V = AptOpView;

    open spec fn view(&self) -> AptOpView {
        self.deep_view()
    }
}

impl AptOp {
    /// The package manager at `apt_path`, with an empty index.
    pub fn new(apt_path: String) -> (r: Self)
        ensures
            r@ == (AptOpView { apt_path: apt_path@, packages: Set::empty() }),
    {
        let r = AptOp { apt_path, list: Vec::new() };
        assert(r.list.deep_view() =~= Seq::<Seq<char>>::empty());
        assert(r@.packages =~= Set::<Seq<char>>::empty());
        r
    }

    /// The command that refreshes what the package manager knows.
    pub fn update(&self) -> (r: CommandLine)
        ensures
            r@ == self@.update(),
    {
        let mut args: Vec<String> = Vec::new();
        args.push("update".to_owned());
        let r = CommandLine { program: self.apt_path.clone(), args, envs: Vec::new() };
        assert(r@.args =~= self@.update().args);
        assert(r@.envs =~= self@.update().envs);
        r
    }

    /// The command that lists the packages that the package manager knows.
    pub fn list(&self) -> (r: CommandLine)
        ensures
            r@ == self@.list(),
    {
        let mut args: Vec<String> = Vec::new();
        args.push("list".to_owned());
        let r = CommandLine { program: self.apt_path.clone(), args, envs: Vec::new() };
        assert(r@.args =~= self@.list().args);
        assert(r@.envs =~= self@.list().envs);
        r
    }

    /// Takes `output`, what the listing command wrote, as the index.
    pub fn get_list(&mut self, output: &str)
        ensures
            final(self)@ == (AptOpView {
                apt_path: old(self)@.apt_path,
                packages: listed_names(output@).to_set(),
            }),
    {
        self.list = parse_list(output);
    }

    /// Passes when the index holds a package `name`.
    pub fn check(&self, name: &str) -> (r: Result<(), CheckError>)
        ensures
            match r {
                Ok(_) => self@.packages.contains(name@),
                Err(error) => !self@.packages.contains(name@) && error@
                    == CheckErrorView::UnknownPackage(name@),
            },
    {
        let wanted = name.to_owned();
        let mut i: usize = 0;
        while i < self.list.len()
            invariant
                i <= self.list.len(),
                wanted@ == name@,
                forall|k: int| 0 <= k < i ==> self.list.deep_view()[k] != name@,
            decreases self.list.len() - i,
        {
            if self.list[i] == wanted {
                assert(self.list.deep_view()[i as int] == name@);
                return Ok(());
            }
            i += 1;
        }
        Err(CheckError::UnknownPackage(wanted))
    }

    /// The command that installs the package `name`.
    pub fn install(&self, name: &str) -> (r: CommandLine)
        ensures
            r@ == self@.install(name@),
    {
        let mut args: Vec<String> = Vec::new();
        args.push("install".to_owned());
        args.push("-y".to_owned());
        args.push(name.to_owned());
        let mut envs: Vec<(String, String)> = Vec::new();
        envs.push(("DEBIAN_FRONTEND".to_owned(), "noninteractive".to_owned()));
        let r = CommandLine { program: self.apt_path.clone(), args, envs };
        assert(r@.args =~= self@.install(name@).args);
        assert(r@.envs =~= self@.install(name@).envs);
        r
    }

    /// The command that removes the package `name` and what only it needed.
    pub fn remove(&self, name: &str) -> (r: CommandLine)
        ensures
            r@ == self@.remove(name@),
    {
        let mut args: Vec<String> = Vec::new();
        args.push("remove".to_owned());
        args.push("-y".to_owned());
        args.push("--autoremove".to_owned());
        args.push("--purge".to_owned());
        args.push(name.to_owned());
        let r = CommandLine { program: self.apt_path.clone(), args, envs: Vec::new() };
        assert(r@.args =~= self@.remove(name@).args);
        assert(r@.envs =~= self@.remove(name@).envs);
        r
    }
}

} // verus!
