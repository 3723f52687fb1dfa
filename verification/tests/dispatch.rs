use distro_pioneer::deploy::alias::Alias;
use distro_pioneer::deploy::apt::Apt;
use distro_pioneer::deploy::command::Command;
use distro_pioneer::deploy::deployer::{ConfigInfo, Deployer, InstallInfo};
use distro_pioneer::deploy::env::Env;
use distro_pioneer::deploy::envrc::Envrc;
use distro_pioneer::deploy::file::File;
use distro_pioneer::deploy::run::Request;
use distro_pioneer::deploy::InstallItem;
use distro_pioneer::program::CommandLine;
use distro_pioneer::types::config::{Config, ConfigList, Content, Info, InstallList, StringOr};

fn full_config() -> Config {
    Config {
        infomation: Info {
            name: "base".to_string(),
            description: Some("everything".to_string()),
            install_while: None,
        },
        install: InstallList {
            apt: Some(vec!["curl".to_string(), "git".to_string()]),
            alias: Some(vec![
                ("ll".to_string(), "ls -la".to_string()),
                ("gs".to_string(), "git status".to_string()),
            ]),
            command: Some(vec![
                ("hello".to_string(), StringOr::String("echo hello".to_string())),
                ("tool".to_string(), StringOr::Object(Content::File("bin/tool".to_string()))),
            ]),
            env: Some(vec![("FOO".to_string(), "bar".to_string())]),
            envrc: Some(vec![Content::Raw("f() { :; }".to_string()), Content::File("rc.sh".to_string())]),
            files: Some(vec![
                ("etc/notes".to_string(), StringOr::Object(Content::Raw("n".to_string()))),
                ("/opt/abs".to_string(), StringOr::String("a".to_string())),
            ]),
        },
    }
}

fn named(name: &str, predicate: Option<&str>, alias: &str) -> Config {
    let mut config = Config::default();
    config.infomation.name = name.to_string();
    config.infomation.install_while = predicate.map(|test| test.to_string());
    config.install.alias = Some(vec![(alias.to_string(), "true".to_string())]);
    config
}

fn items_of(deployer: &Deployer) -> Vec<String> {
    let mut labels = Vec::new();
    let (mut progress, mut request) = deployer.start();
    let mut guard = 0;
    loop {
        guard += 1;
        assert!(guard < 1000);
        let reply = match &request {
            Request::Probe { .. } => distro_pioneer::deploy::run::Reply::Kind(
                distro_pioneer::op::file::PathKind::Missing,
            ),
            Request::Perform(distro_pioneer::deploy::Effect::Write { content, .. }) => {
                for line in content.lines() {
                    if line.starts_with("alias ") && !line.starts_with("alias uninstall=") {
                        labels.push(line.to_string());
                    }
                }
                return labels;
            }
            _ => panic!("{:?}", request),
        };
        request = deployer.deploy(&mut progress, reply);
    }
}

#[test]
fn sections_come_in_the_fixed_order() {
    let items = Deployer::dispath_config(&full_config(), "/conf", "/home/u/.distro/base");
    let raw = Content::Raw("f() { :; }".to_string());
    let rc_file = Content::File("rc.sh".to_string());
    let expected = vec![
        InstallItem::Apt(Apt::from_sw("curl")),
        InstallItem::Apt(Apt::from_sw("git")),
        InstallItem::Alias(Alias::from_pair("ll", "ls -la")),
        InstallItem::Alias(Alias::from_pair("gs", "git status")),
        InstallItem::Command(Command::from_content(
            "hello",
            &StringOr::String("echo hello".to_string()),
            "/conf",
            "/home/u/.distro/base/bin",
        )),
        InstallItem::Command(Command::from_content(
            "tool",
            &StringOr::Object(Content::File("bin/tool".to_string())),
            "/conf",
            "/home/u/.distro/base/bin",
        )),
        InstallItem::Env(Env::from_kv("FOO", "bar")),
        InstallItem::Envrc(Envrc::from_content(&raw, "/conf")),
        InstallItem::Envrc(Envrc::from_content(&rc_file, "/conf")),
        InstallItem::File(File::from_content(
            "etc/notes",
            &StringOr::Object(Content::Raw("n".to_string())),
            "/conf",
            "/home/u/.distro/base",
        )),
        InstallItem::File(File::from_content(
            "/opt/abs",
            &StringOr::String("a".to_string()),
            "/conf",
            "/home/u/.distro/base",
        )),
    ];
    assert_eq!(items, expected);
}

#[test]
fn targets_are_resolved_under_the_install_root() {
    let items = Deployer::dispath_config(&full_config(), "/conf", "/home/u/.distro/base");
    let targets: Vec<Option<String>> = items.iter().map(|item| item.target_path()).collect();
    assert_eq!(
        targets,
        vec![
            None,
            None,
            None,
            None,
            Some("/home/u/.distro/base/bin/hello".to_string()),
            Some("/home/u/.distro/base/bin/tool".to_string()),
            None,
            None,
            None,
            Some("/home/u/.distro/base/etc/notes".to_string()),
            Some("/opt/abs".to_string()),
        ]
    );
    let sources: Vec<Option<String>> = items.iter().map(|item| item.source_path()).collect();
    assert_eq!(sources[5], Some("/conf/bin/tool".to_string()));
    assert_eq!(sources[8], Some("/conf/rc.sh".to_string()));
    assert_eq!(sources[4], None);
}

#[test]
fn an_empty_configuration_has_no_items() {
    assert_eq!(Deployer::dispath_config(&Config::default(), "c", "i"), vec![]);
    let mut config = Config::default();
    config.install.apt = Some(vec![]);
    config.install.files = Some(vec![]);
    assert_eq!(Deployer::dispath_config(&config, "c", "i"), vec![]);
    assert_eq!(ConfigList::default().configs.len(), 0);
    assert_eq!(Info::default().name, "");
    assert_eq!(InstallList::default().envrc, None);
}

#[test]
fn deploy_root_is_under_the_home_directory() {
    assert_eq!(Deployer::deploy_dir("/home/u"), "/home/u/.distro");
    assert_eq!(Deployer::deploy_dir("/home/u/"), "/home/u/.distro");
}

#[test]
fn predicate_is_a_shell_command() {
    let conditional = named("a", Some("test -d /opt"), "x");
    assert_eq!(
        Deployer::predicate(&conditional),
        Some(CommandLine {
            program: "bash".to_string(),
            args: vec!["-c".to_string(), "test -d /opt".to_string()],
            envs: vec![],
        })
    );
    assert_eq!(Deployer::predicate(&named("a", None, "x")), None);
}

#[test]
fn a_predicate_that_did_not_pass_keeps_its_configuration_out() {
    let configs = vec![
        ConfigInfo { file: "/c/one.toml".to_string(), config: named("one", Some("false"), "first") },
        ConfigInfo { file: "/c/two.toml".to_string(), config: named("two", None, "second") },
        ConfigInfo { file: "/c/three.toml".to_string(), config: named("three", Some("true"), "third") },
    ];
    let deployer = Deployer::from_list(configs, &vec![false, false, true], "/home/u");
    assert_eq!(items_of(&deployer), vec!["alias second=$'true'", "alias third=$'true'"]);
}

#[test]
fn a_configuration_without_a_predicate_is_always_in() {
    let configs = vec![
        ConfigInfo { file: "one.toml".to_string(), config: named("one", None, "first") },
        ConfigInfo { file: "two.toml".to_string(), config: named("two", None, "second") },
    ];
    let deployer = Deployer::from_list(configs, &vec![false, false], "/home/u");
    assert_eq!(items_of(&deployer), vec!["alias first=$'true'", "alias second=$'true'"]);
}

#[test]
fn a_predicate_without_an_outcome_did_not_pass() {
    let configs = vec![
        ConfigInfo { file: "one.toml".to_string(), config: named("one", Some("true"), "first") },
        ConfigInfo { file: "two.toml".to_string(), config: named("two", Some("true"), "second") },
    ];
    let deployer = Deployer::from_list(configs, &vec![true], "/home/u");
    assert_eq!(items_of(&deployer), vec!["alias first=$'true'"]);
}

#[test]
fn items_carry_their_file_and_resolve_against_its_directory() {
    let mut config = Config::default();
    config.infomation.name = "base".to_string();
    config.install.envrc = Some(vec![Content::File("rc.sh".to_string())]);
    config.install.command = Some(vec![("go".to_string(), StringOr::String("x".to_string()))]);
    let configs = vec![ConfigInfo { file: "/etc/pioneer/base.toml".to_string(), config }];
    let deployer = Deployer::from_list(configs, &vec![], "/home/u");
    let expected = InstallInfo {
        config_file: "/etc/pioneer/base.toml".to_string(),
        install_items: InstallItem::Envrc(Envrc::from_content(
            &Content::File("rc.sh".to_string()),
            "/etc/pioneer",
        )),
    };
    assert_eq!(expected.install_items.source_path(), Some("/etc/pioneer/rc.sh".to_string()));
    let (_, request) = deployer.start();
    assert_eq!(request, Request::Probe { path: "/home/u/.distro/base/bin/go".to_string() });
}

#[test]
fn a_configuration_file_without_a_directory_resolves_against_nothing() {
    let mut config = Config::default();
    config.infomation.name = "base".to_string();
    config.install.envrc = Some(vec![Content::File("rc.sh".to_string())]);
    let configs = vec![ConfigInfo { file: "base.toml".to_string(), config }];
    let deployer = Deployer::from_list(configs, &vec![], "/home/u");
    let (_, request) = deployer.start();
    assert_eq!(request, Request::Probe { path: "rc.sh".to_string() });
}

#[test]
fn keyed_sections_declare_each_key_once() {
    assert!(InstallList::default().well_formed());
    assert!(full_config().install.well_formed());
    let mut twice = full_config().install;
    twice.alias = Some(vec![
        ("ll".to_string(), "ls -la".to_string()),
        ("gs".to_string(), "git status".to_string()),
        ("ll".to_string(), "ls".to_string()),
    ]);
    assert!(!twice.well_formed());
    let mut files = full_config().install;
    files.files = Some(vec![
        ("a".to_string(), StringOr::String("1".to_string())),
        ("a".to_string(), StringOr::Object(Content::Raw("2".to_string()))),
    ]);
    assert!(!files.well_formed());
    let mut across = InstallList::default();
    across.alias = Some(vec![("same".to_string(), "x".to_string())]);
    across.env = Some(vec![("same".to_string(), "y".to_string())]);
    assert!(across.well_formed());
}
