use distro_pioneer::deploy::alias::Alias;
use distro_pioneer::deploy::apt::Apt;
use distro_pioneer::deploy::command::Command;
use distro_pioneer::deploy::env::Env;
use distro_pioneer::deploy::envrc::Envrc;
use distro_pioneer::deploy::file::File;
use distro_pioneer::deploy::{Effect, InstallItem, Installed, Seen, EXECUTABLE};
use distro_pioneer::error::CheckError;
use distro_pioneer::op::apt::AptOp;
use distro_pioneer::op::file::PathKind;
use distro_pioneer::program::CommandLine;
use distro_pioneer::types::config::{Content, StringOr};

fn listed(names: &str) -> AptOp {
    let mut apt = AptOp::new("/usr/bin/apt".to_string());
    apt.get_list(names);
    apt
}

#[test]
fn alias_gives_its_line() {
    let alias = Alias::from_pair("ll", "ls -la");
    assert_eq!(alias.check(), Ok(()));
    assert_eq!(alias.install(), Installed::Rc { command: "alias ll=$'ls -la'".to_string() });
    assert_eq!(alias.label(), "alias ll");
}

#[test]
fn alias_escapes_single_quotes() {
    let alias = Alias::from_pair("hi", "echo 'hi there'");
    assert_eq!(
        alias.install(),
        Installed::Rc { command: "alias hi=$'echo \\'hi there\\''".to_string() }
    );
}

#[test]
fn alias_with_a_bad_name_is_turned_down() {
    assert_eq!(
        Alias::from_pair("l l", "ls").check(),
        Err(CheckError::InvalidName("l l".to_string()))
    );
    assert_eq!(Alias::from_pair("", "ls").check(), Err(CheckError::InvalidName(String::new())));
    assert_eq!(
        Alias::from_pair("a=b", "ls").check(),
        Err(CheckError::InvalidName("a=b".to_string()))
    );
}

#[test]
fn env_gives_its_line() {
    let env = Env::from_kv("FOO", "bar");
    assert_eq!(env.check(), Ok(()));
    assert_eq!(env.install(), Installed::Rc { command: "export FOO=\"bar\"".to_string() });
    assert_eq!(
        Env::from_kv("9LIVES", "x").check(),
        Err(CheckError::InvalidName("9LIVES".to_string()))
    );
}

#[test]
fn package_is_checked_against_the_index() {
    let apt = listed("curl/stable 8.0 amd64\ngit/stable 2.4 amd64 [installed]\n");
    let curl = Apt::from_sw("curl");
    assert_eq!(curl.check(&apt), Ok(()));
    assert_eq!(
        Apt::from_sw("nope").check(&apt),
        Err(CheckError::UnknownPackage("nope".to_string()))
    );
    assert_eq!(
        curl.install(&apt),
        Effect::Install(CommandLine {
            program: "/usr/bin/apt".to_string(),
            args: vec!["install".to_string(), "-y".to_string(), "curl".to_string()],
            envs: vec![("DEBIAN_FRONTEND".to_string(), "noninteractive".to_string())],
        })
    );
    assert_eq!(curl.installed(), Installed::Apt { name: "curl".to_string() });
}

#[test]
fn command_from_raw_text_is_written_executable() {
    let content = StringOr::Object(Content::Raw("hello".to_string()));
    let command = Command::from_content("greet", &content, "conf", "/root/bin");
    assert_eq!(command.target(), "/root/bin/greet");
    assert_eq!(command.check(PathKind::Missing, PathKind::Missing), Ok(()));
    assert_eq!(
        command.install(),
        Ok(Effect::Write {
            path: "/root/bin/greet".to_string(),
            content: "hello".to_string(),
            mode: Some(0o755),
        })
    );
    assert_eq!(EXECUTABLE, 0o755);
    assert_eq!(command.installed(), Installed::Path { path: "/root/bin".to_string() });
}

#[test]
fn command_from_plain_text_is_the_same_as_raw() {
    let content = StringOr::String("echo hi".to_string());
    let command = Command::from_content("hi", &content, "conf", "/root/bin");
    assert_eq!(
        command.install(),
        Ok(Effect::Write {
            path: "/root/bin/hi".to_string(),
            content: "echo hi".to_string(),
            mode: Some(0o755),
        })
    );
}

#[test]
fn command_from_a_file_is_copied_from_the_configuration_directory() {
    let content = StringOr::Object(Content::File("scripts/run.sh".to_string()));
    let command = Command::from_content("run", &content, "/etc/conf", "/root/bin");
    assert_eq!(
        command.check(PathKind::Missing, PathKind::Missing),
        Err(CheckError::MissingSource("/etc/conf/scripts/run.sh".to_string()))
    );
    assert_eq!(command.check(PathKind::File, PathKind::File), Ok(()));
    assert_eq!(
        command.install(),
        Ok(Effect::Copy {
            source: "/etc/conf/scripts/run.sh".to_string(),
            target: "/root/bin/run".to_string(),
        })
    );
}

#[test]
fn command_checks_name_then_source_then_target() {
    let file = StringOr::Object(Content::File("x".to_string()));
    let bad = Command::from_content("no good", &file, "c", "/b");
    assert_eq!(
        bad.check(PathKind::Missing, PathKind::Directory),
        Err(CheckError::InvalidName("no good".to_string()))
    );
    let good = Command::from_content("good", &file, "c", "/b");
    assert_eq!(
        good.check(PathKind::Missing, PathKind::Directory),
        Err(CheckError::MissingSource("c/x".to_string()))
    );
    assert_eq!(
        good.check(PathKind::File, PathKind::Directory),
        Err(CheckError::TargetIsDirectory("/b/good".to_string()))
    );
    assert_eq!(good.check(PathKind::Directory, PathKind::Other), Ok(()));
}

#[test]
fn url_content_is_unsupported_in_check_and_in_install() {
    let url = StringOr::Object(Content::Url("https://example.org/x".to_string()));
    let command = Command::from_content("x", &url, "c", "/b");
    assert_eq!(
        command.check(PathKind::File, PathKind::Missing),
        Err(CheckError::UnsupportedSource("https://example.org/x".to_string()))
    );
    assert_eq!(
        command.install(),
        Err(CheckError::UnsupportedSource("https://example.org/x".to_string()))
    );
    let file = File::from_content("x", &url, "c", "/root");
    assert_eq!(
        file.check(PathKind::File, PathKind::Missing),
        Err(CheckError::UnsupportedSource("https://example.org/x".to_string()))
    );
    assert_eq!(
        file.install(),
        Err(CheckError::UnsupportedSource("https://example.org/x".to_string()))
    );
    let rc = Envrc::from_content(&Content::Url("u".to_string()), "c");
    assert_eq!(rc.check(PathKind::File), Err(CheckError::UnsupportedSource("u".to_string())));
    assert_eq!(rc.install(), Err(CheckError::UnsupportedSource("u".to_string())));
}

#[test]
fn file_from_raw_text_round_trips() {
    let content = StringOr::Object(Content::Raw("hello".to_string()));
    let file = File::from_content("notes/hello.txt", &content, "conf", "/root/.distro/base");
    assert_eq!(file.target(), "/root/.distro/base/notes/hello.txt");
    assert_eq!(file.check(PathKind::Missing, PathKind::Missing), Ok(()));
    assert_eq!(
        file.install(),
        Ok(Effect::Write {
            path: "/root/.distro/base/notes/hello.txt".to_string(),
            content: "hello".to_string(),
            mode: Some(0o755),
        })
    );
    assert_eq!(
        file.installed(),
        Installed::File { file: "/root/.distro/base/notes/hello.txt".to_string() }
    );
}

#[test]
fn file_with_an_absolute_path_keeps_it() {
    let content = StringOr::String("x".to_string());
    let file = File::from_content("/etc/motd", &content, "conf", "/root/.distro/base");
    assert_eq!(file.target(), "/etc/motd");
    assert_eq!(
        file.check(PathKind::Missing, PathKind::Directory),
        Err(CheckError::TargetIsDirectory("/etc/motd".to_string()))
    );
}

#[test]
fn snippet_is_its_text_or_what_its_file_holds() {
    let raw = Envrc::from_content(&Content::Raw("f() { :; }".to_string()), "conf");
    assert_eq!(raw.check(PathKind::Missing), Ok(()));
    assert_eq!(raw.install(), Ok(Effect::Nothing));
    assert_eq!(raw.installed("ignored"), Installed::Rc { command: "f() { :; }".to_string() });

    let file = Envrc::from_content(&Content::File("rc.sh".to_string()), "conf");
    assert_eq!(
        file.check(PathKind::Missing),
        Err(CheckError::MissingSource("conf/rc.sh".to_string()))
    );
    assert_eq!(file.check(PathKind::File), Ok(()));
    assert_eq!(file.install(), Ok(Effect::Read { path: "conf/rc.sh".to_string() }));
    assert_eq!(file.installed("export A=1\n"), Installed::Rc { command: "export A=1\n".to_string() });
}

#[test]
fn any_item_says_what_its_check_asks_about() {
    let blank = Seen { source: PathKind::Missing, target: PathKind::Missing };
    let apt = listed("curl/x\n");
    let package = InstallItem::Apt(Apt::from_sw("curl"));
    assert!(package.uses_packages());
    assert_eq!(package.source_path(), None);
    assert_eq!(package.target_path(), None);
    assert_eq!(package.check(&apt, blank), Ok(()));
    assert_eq!(package.installed(""), Installed::Apt { name: "curl".to_string() });
    assert_eq!(package.label(), "apt curl");

    let content = StringOr::Object(Content::File("b.sh".to_string()));
    let command = InstallItem::Command(Command::from_content("b", &content, "/c", "/i/bin"));
    assert!(!command.uses_packages());
    assert_eq!(command.source_path(), Some("/c/b.sh".to_string()));
    assert_eq!(command.target_path(), Some("/i/bin/b".to_string()));
    assert_eq!(command.label(), "command b");
    assert_eq!(
        command.check(&apt, Seen { source: PathKind::File, target: PathKind::Directory }),
        Err(CheckError::TargetIsDirectory("/i/bin/b".to_string()))
    );

    let alias = InstallItem::Alias(Alias::from_pair("ll", "ls"));
    assert_eq!(alias.install(&apt), Ok(Effect::Nothing));
    assert_eq!(alias.installed("x"), Installed::Rc { command: "alias ll=$'ls'".to_string() });
    let env = InstallItem::Env(Env::from_kv("A", "b"));
    assert_eq!(env.install(&apt), Ok(Effect::Nothing));
    assert_eq!(env.label(), "env A");
    let rc = InstallItem::Envrc(Envrc::from_content(&Content::Raw("x".to_string()), "c"));
    assert_eq!(rc.label(), "envrc");
    assert_eq!(rc.target_path(), None);
    let file = InstallItem::File(File::from_content("f", &StringOr::String("x".to_string()), "c", "/i"));
    assert_eq!(file.label(), "file /i/f");
    assert_eq!(file.source_path(), None);
}

#[test]
fn check_errors_name_what_is_at_fault() {
    assert_eq!(
        CheckError::InvalidName("a b".to_string()).message(),
        "a b: a name only allows letters, numbers, underscores(_), and hyphens(-)"
    );
    assert_eq!(CheckError::MissingSource("/x".to_string()).message(), "/x is not exist");
    assert_eq!(
        CheckError::UnsupportedSource("u".to_string()).message(),
        "u: unsupported content source"
    );
    assert_eq!(CheckError::TargetIsDirectory("/d".to_string()).message(), "/d is a directory");
    assert_eq!(CheckError::UnknownPackage("p".to_string()).message(), "Can not find package: p");
    assert_eq!(
        CheckError::PackageIndex("no apt".to_string()).message(),
        "Fail to list the packages: no apt"
    );
}
