//! The generated profile: the shell file that carries what the installed items left behind.

use crate::deploy::deployer::Deployer;
use crate::deploy::{Installed, InstalledView};
use crate::text::{chain, join, join_with};
use vstd::prelude::*;
use vstd::string::StringExecFns;

verus! {

/// The name under which the profile says what generated it.
pub const GENERATOR: &'static str = "distro-pioneer";

/// The shell text that the items left, in the order in which they were installed.
pub open spec fn rc_lines(installed: Seq<InstalledView>) -> Seq<Seq<char>>
    decreases installed.len(),
{
    if installed.len() == 0 {
        Seq::empty()
    } else {
        let before = rc_lines(installed.drop_last());
        match installed.last() {
            InstalledView::Rc { command } => before.push(command),
            _ => before,
        }
    }
}

/// The directories that the items left for `PATH`, each once, in the order in which they
/// first came.
pub open spec fn path_dirs(installed: Seq<InstalledView>) -> Seq<Seq<char>>
    decreases installed.len(),
{
    if installed.len() == 0 {
        Seq::empty()
    } else {
        let before = path_dirs(installed.drop_last());
        match installed.last() {
            InstalledView::Path { path } => if before.contains(path) {
                before
            } else {
                before.push(path)
            },
            _ => before,
        }
    }
}

/// The alias with which the user removes the deploy root.
pub open spec fn uninstall_alias(install_dir: Seq<char>) -> Seq<char> {
    "alias uninstall='rm -rf "@ + install_dir + "'"@
}

/// The text of the profile: a header, `PATH` with the directories of the installed
/// commands before what it held, the shell text of the items, one after the other, and the
/// alias that removes the deploy root.
pub open spec fn profile_text(installed: Seq<InstalledView>, install_dir: Seq<char>) -> Seq<char> {
    "#!/bin/bash\n# This file is auto-generated by "@ + GENERATOR@
        + ". Do not modify it to avoid invalidation.\nexport PATH="@ + join_with(
        path_dirs(installed),
        ":"@,
    ) + ":$PATH\n"@ + join_with(rc_lines(installed), "\n"@) + "\n"@ + uninstall_alias(install_dir)
        + "\n"@
}

/// No directory is put on `PATH` twice, and a directory is put there exactly when an
/// installed item left it.
pub proof fn lemma_path_dirs(installed: Seq<InstalledView>)
    ensures
        path_dirs(installed).no_duplicates(),
        forall|path: Seq<char>|
            path_dirs(installed).contains(path) <==> installed.contains(
                InstalledView::Path { path },
            ),
    decreases installed.len(),
{
    if installed.len() > 0 {
        let rest = installed.drop_last();
        lemma_path_dirs(rest);
        let before = path_dirs(rest);
        assert forall|path: Seq<char>|
            path_dirs(installed).contains(path) <==> installed.contains(
                InstalledView::Path { path },
            ) by {
            let wanted = InstalledView::Path { path };
            if installed.contains(wanted) {
                let i = choose|i: int| 0 <= i < installed.len() && installed[i] == wanted;
                if i < rest.len() {
                    assert(rest[i] == wanted);
                    assert(before.contains(path));
                    let k = choose|k: int| 0 <= k < before.len() && before[k] == path;
                    assert(path_dirs(installed)[k] == path);
                } else {
                    assert(installed.last() == wanted);
                    if before.contains(path) {
                    } else {
                        assert(path_dirs(installed)[before.len() as int] == path);
                    }
                }
            }
            if path_dirs(installed).contains(path) {
                let k = choose|k: int|
                    0 <= k < path_dirs(installed).len() && path_dirs(installed)[k] == path;
                if k < before.len() {
                    assert(before[k] == path);
                    assert(before.contains(path));
                    assert(rest.contains(wanted));
                    let i = choose|i: int| 0 <= i < rest.len() && rest[i] == wanted;
                    assert(installed[i] == wanted);
                } else {
                    assert(installed[installed.len() - 1] == wanted);
                }
            }
        }
    }
}

/// The shell text that the items left.
fn collect_lines(installed: &Vec<Installed>) -> (lines: Vec<String>)
    ensures
        lines.deep_view() == rc_lines(installed.deep_view()),
{
    let mut lines: Vec<String> = Vec::new();
    let mut i: usize = 0;
    assert(installed.deep_view().take(0) =~= Seq::empty());
    while i < installed.len()
        invariant
            i <= installed.len(),
            lines.deep_view() == rc_lines(installed.deep_view().take(i as int)),
        decreases installed.len() - i,
    {
        let ghost before = lines.deep_view();
        proof {
            let now = installed.deep_view().take(i as int + 1);
            assert(now.drop_last() =~= installed.deep_view().take(i as int));
            assert(now.last() == installed@[i as int]@);
        }
        match &installed[i] {
            Installed::Rc { command } => {
                lines.push(command.clone());
                assert(lines.deep_view() =~= before.push(command@));
            },
            _ => {},
        }
        i += 1;
    }
    assert(installed.deep_view().take(installed.len() as int) =~= installed.deep_view());
    lines
}

/// Whether `dirs` holds `path`.
fn holds(dirs: &Vec<String>, path: &String) -> (r: bool)
    ensures
        r == dirs.deep_view().contains(path@),
{
    let mut k: usize = 0;
    while k < dirs.len()
        invariant
            k <= dirs.len(),
            forall|j: int| 0 <= j < k ==> dirs.deep_view()[j] != path@,
        decreases dirs.len() - k,
    {
        if dirs[k] == *path {
            assert(dirs.deep_view()[k as int] == path@);
            return true;
        }
        k += 1;
    }
    false
}

/// The directories that the items left for `PATH`, each once.
fn collect_dirs(installed: &Vec<Installed>) -> (dirs: Vec<String>)
    ensures
        dirs.deep_view() == path_dirs(installed.deep_view()),
{
    let mut dirs: Vec<String> = Vec::new();
    let mut i: usize = 0;
    assert(installed.deep_view().take(0) =~= Seq::empty());
    while i < installed.len()
        invariant
            i <= installed.len(),
            dirs.deep_view() == path_dirs(installed.deep_view().take(i as int)),
        decreases installed.len() - i,
    {
        let ghost before = dirs.deep_view();
        proof {
            let now = installed.deep_view().take(i as int + 1);
            assert(now.drop_last() =~= installed.deep_view().take(i as int));
            assert(now.last() == installed@[i as int]@);
        }
        match &installed[i] {
            Installed::Path { path } => {
                if !holds(&dirs, path) {
                    dirs.push(path.clone());
                    assert(dirs.deep_view() =~= before.push(path@));
                }
            },
            _ => {},
        }
        i += 1;
    }
    assert(installed.deep_view().take(installed.len() as int) =~= installed.deep_view());
    dirs
}

impl Deployer {
    /// Writes out the profile for what the items left behind, for a deploy root
    /// `install_dir`.
    pub fn profile(installed: &Vec<Installed>, install_dir: &str) -> (r: String)
        ensures
            r@ == profile_text(installed.deep_view(), install_dir@),
    {
        let lines = collect_lines(installed);
        let dirs = collect_dirs(installed);
        let mut r = chain("#!/bin/bash\n# This file is auto-generated by ", GENERATOR);
        r.append(". Do not modify it to avoid invalidation.\nexport PATH=");
        r.append(join(&dirs, ":").as_str());
        r.append(":$PATH\n");
        r.append(join(&lines, "\n").as_str());
        r.append("\n");
        r.append("alias uninstall='rm -rf ");
        r.append(install_dir);
        r.append("'");
        r.append("\n");
        assert(r@ =~= profile_text(installed.deep_view(), install_dir@));
        r
    }
}

} // verus!
