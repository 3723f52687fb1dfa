use distro_pioneer::deploy::deployer::{ConfigInfo, Deployer};
use distro_pioneer::deploy::run::{Reply, Request, Stage};
use distro_pioneer::deploy::Effect;
use distro_pioneer::error::{CheckError, DeployError};
use distro_pioneer::op::file::PathKind;
use distro_pioneer::types::config::{Config, Content, StringOr};
use std::collections::BTreeMap;

struct Machine {
    files: BTreeMap<String, String>,
    modes: BTreeMap<String, u32>,
    dirs: Vec<String>,
    apt: Option<String>,
    listing: String,
    refuse_query: Option<String>,
    commands: Vec<String>,
    changes: Vec<String>,
    probes: Vec<String>,
    refuse_writes_to: Option<String>,
}

impl Machine {
    fn new() -> Machine {
        let mut files = BTreeMap::new();
        files.insert("/home/u/.bashrc".to_string(), "export EDITOR=vi\n".to_string());
        Machine {
            files,
            modes: BTreeMap::new(),
            dirs: vec!["/home/u".to_string()],
            apt: Some("/usr/bin/apt".to_string()),
            listing: "Listing...\ncurl/stable 8.0 amd64\ngit/stable 2.4 amd64\n".to_string(),
            refuse_query: None,
            commands: Vec::new(),
            changes: Vec::new(),
            probes: Vec::new(),
            refuse_writes_to: None,
        }
    }

    fn kind(&self, path: &str) -> PathKind {
        if self.files.contains_key(path) {
            PathKind::File
        } else if self.dirs.iter().any(|dir| dir == path) {
            PathKind::Directory
        } else {
            PathKind::Missing
        }
    }

    fn answer(&mut self, request: &Request) -> Reply {
        match request {
            Request::Probe { path } => {
                self.probes.push(path.clone());
                Reply::Kind(self.kind(path))
            }
            Request::Locate { program } => match &self.apt {
                Some(path) if program == "apt" => Reply::Text(path.clone()),
                _ => Reply::Failed(format!("cannot find binary path: {}", program)),
            },
            Request::Query(command) => {
                self.commands.push(command.render());
                if self.refuse_query.as_deref() == command.args.first().map(|word| word.as_str()) {
                    return Reply::Failed(format!("COMMAND:\n {}\n", command.render()));
                }
                if command.args == vec!["list".to_string()] {
                    Reply::Text(self.listing.clone())
                } else {
                    Reply::Text(String::new())
                }
            }
            Request::Perform(effect) => self.perform(effect),
            Request::Finish(_) => panic!("nothing follows the end of a run"),
        }
    }

    fn perform(&mut self, effect: &Effect) -> Reply {
        match effect {
            Effect::Nothing => Reply::Text(String::new()),
            Effect::Install(command) => {
                self.changes.push(format!("run {}", command.render()));
                Reply::Text(String::new())
            }
            Effect::Write { path, content, mode } => {
                if self.refuse_writes_to.as_deref() == Some(path.as_str()) {
                    return Reply::Failed(format!("Fail to write file {}", path));
                }
                self.changes.push(format!("write {}", path));
                self.files.insert(path.clone(), content.clone());
                if let Some(mode) = mode {
                    self.modes.insert(path.clone(), *mode);
                }
                Reply::Text(String::new())
            }
            Effect::Copy { source, target } => match self.files.get(source).cloned() {
                Some(content) => {
                    self.changes.push(format!("copy {} {}", source, target));
                    self.files.insert(target.clone(), content);
                    Reply::Text(String::new())
                }
                None => Reply::Failed(format!("Failed to copy {} to {}", source, target)),
            },
            Effect::Read { path } => match self.files.get(path) {
                Some(content) => Reply::Text(content.clone()),
                None => Reply::Failed(format!("Fail to read file {}", path)),
            },
            Effect::Remove { path } => {
                self.changes.push(format!("remove {}", path));
                Reply::Text(String::new())
            }
        }
    }

    fn run(&mut self, deployer: &Deployer) -> Result<(), DeployError> {
        let (mut progress, mut request) = deployer.start();
        for _ in 0..10_000 {
            let reply = match request {
                Request::Finish(outcome) => return outcome,
                other => self.answer(&other),
            };
            request = deployer.deploy(&mut progress, reply);
        }
        panic!("the run does not end");
    }
}

fn config(name: &str) -> Config {
    let mut config = Config::default();
    config.infomation.name = name.to_string();
    config
}

fn deployer_of(configs: Vec<(&str, Config)>) -> Deployer {
    let passed = vec![true; configs.len()];
    let infos = configs
        .into_iter()
        .map(|(file, config)| ConfigInfo { file: file.to_string(), config })
        .collect();
    Deployer::from_list(infos, &passed, "/home/u")
}

#[test]
fn package_env_and_alias_end_up_in_the_profile() {
    let mut base = config("base");
    base.install.apt = Some(vec!["curl".to_string()]);
    base.install.env = Some(vec![("FOO".to_string(), "bar".to_string())]);
    base.install.alias = Some(vec![("ll".to_string(), "ls -la".to_string())]);
    let deployer = deployer_of(vec![("/conf/base.toml", base)]);
    let mut machine = Machine::new();
    assert_eq!(machine.run(&deployer), Ok(()));

    let profile = &machine.files["/home/u/.distro/allrc"];
    let lines: Vec<&str> = profile.lines().collect();
    assert!(lines.contains(&"export FOO=\"bar\""));
    assert!(lines.contains(&"alias ll=$'ls -la'"));
    assert_eq!(
        profile,
        "#!/bin/bash\n# This file is auto-generated by distro-pioneer. Do not modify it to avoid invalidation.\nexport PATH=:$PATH\nalias ll=$'ls -la'\nexport FOO=\"bar\"\nalias uninstall='rm -rf /home/u/.distro'\n"
    );
    assert_eq!(machine.commands, vec!["/usr/bin/apt update", "/usr/bin/apt list"]);
    assert_eq!(
        machine.changes,
        vec![
            "run /usr/bin/apt install -y curl",
            "write /home/u/.distro/allrc",
            "write /home/u/.bashrc",
        ]
    );
    assert_eq!(
        machine.files["/home/u/.bashrc"],
        "export EDITOR=vi\n\n# Config Start\ntest -f /home/u/.distro/allrc && source /home/u/.distro/allrc\n# Config End\n"
    );
}

#[test]
fn a_second_install_leaves_one_block_in_the_startup_file() {
    let mut base = config("base");
    base.install.alias = Some(vec![("ll".to_string(), "ls -la".to_string())]);
    let deployer = deployer_of(vec![("/conf/base.toml", base)]);
    let mut machine = Machine::new();
    assert_eq!(machine.run(&deployer), Ok(()));
    assert_eq!(machine.run(&deployer), Ok(()));
    let startup = &machine.files["/home/u/.bashrc"];
    assert_eq!(startup.matches("# Config Start\n").count(), 1);
    assert_eq!(startup.matches("# Config End\n").count(), 1);
    assert_eq!(
        startup,
        "export EDITOR=vi\n\n\n# Config Start\ntest -f /home/u/.distro/allrc && source /home/u/.distro/allrc\n# Config End\n"
    );
}

#[test]
fn one_item_that_fails_its_check_keeps_every_item_from_the_machine() {
    let mut base = config("base");
    base.install.apt = Some(vec!["curl".to_string()]);
    base.install.command = Some(vec![
        ("first".to_string(), StringOr::String("echo 1".to_string())),
        ("not valid".to_string(), StringOr::String("echo 2".to_string())),
        ("last".to_string(), StringOr::String("echo 3".to_string())),
    ]);
    base.install.files = Some(vec![("f".to_string(), StringOr::String("x".to_string()))]);
    let deployer = deployer_of(vec![("/conf/base.toml", base)]);
    let mut machine = Machine::new();
    let before = machine.files.clone();
    assert_eq!(
        machine.run(&deployer),
        Err(DeployError::Validation {
            config_file: "/conf/base.toml".to_string(),
            item: "command not valid".to_string(),
            reason: CheckError::InvalidName("not valid".to_string()),
        })
    );
    assert_eq!(machine.changes, Vec::<String>::new());
    assert_eq!(machine.files, before);
}

#[test]
fn the_last_item_failing_its_check_is_enough() {
    let mut base = config("base");
    base.install.alias = Some(vec![("ok".to_string(), "true".to_string())]);
    base.install.files = Some(vec![(
        "f".to_string(),
        StringOr::Object(Content::File("missing.txt".to_string())),
    )]);
    let deployer = deployer_of(vec![("/conf/base.toml", base)]);
    let mut machine = Machine::new();
    let outcome = machine.run(&deployer);
    assert_eq!(
        outcome,
        Err(DeployError::Validation {
            config_file: "/conf/base.toml".to_string(),
            item: "file /home/u/.distro/base/f".to_string(),
            reason: CheckError::MissingSource("/conf/missing.txt".to_string()),
        })
    );
    assert_eq!(
        outcome.unwrap_err().message(),
        "/conf/base.toml -> file /home/u/.distro/base/f checking fail: /conf/missing.txt is not exist"
    );
    assert_eq!(machine.changes, Vec::<String>::new());
}

#[test]
fn an_unknown_package_is_turned_down_before_anything_is_installed() {
    let mut base = config("base");
    base.install.apt = Some(vec!["curl".to_string(), "nonesuch".to_string()]);
    let deployer = deployer_of(vec![("/conf/base.toml", base)]);
    let mut machine = Machine::new();
    assert_eq!(
        machine.run(&deployer),
        Err(DeployError::Validation {
            config_file: "/conf/base.toml".to_string(),
            item: "apt nonesuch".to_string(),
            reason: CheckError::UnknownPackage("nonesuch".to_string()),
        })
    );
    assert_eq!(machine.commands, vec!["/usr/bin/apt update", "/usr/bin/apt list"]);
    assert_eq!(machine.changes, Vec::<String>::new());
}

#[test]
fn the_package_index_is_loaded_once_and_only_when_needed() {
    let mut base = config("base");
    base.install.apt = Some(vec!["curl".to_string(), "git".to_string()]);
    let deployer = deployer_of(vec![("/conf/base.toml", base)]);
    let mut machine = Machine::new();
    assert_eq!(machine.run(&deployer), Ok(()));
    assert_eq!(machine.commands, vec!["/usr/bin/apt update", "/usr/bin/apt list"]);

    let mut plain = config("plain");
    plain.install.alias = Some(vec![("ll".to_string(), "ls".to_string())]);
    let deployer = deployer_of(vec![("/conf/plain.toml", plain)]);
    let mut machine = Machine::new();
    machine.apt = None;
    assert_eq!(machine.run(&deployer), Ok(()));
    assert_eq!(machine.commands, Vec::<String>::new());
}

#[test]
fn a_missing_package_manager_fails_the_check_of_the_package() {
    let mut base = config("base");
    base.install.apt = Some(vec!["curl".to_string()]);
    let deployer = deployer_of(vec![("/conf/base.toml", base)]);
    let mut machine = Machine::new();
    machine.apt = None;
    assert_eq!(
        machine.run(&deployer),
        Err(DeployError::Validation {
            config_file: "/conf/base.toml".to_string(),
            item: "apt curl".to_string(),
            reason: CheckError::PackageIndex("cannot find binary path: apt".to_string()),
        })
    );
    assert_eq!(machine.changes, Vec::<String>::new());
}

#[test]
fn two_configurations_may_both_declare_a_command_of_one_name() {
    let mut one = config("one");
    one.install.command = Some(vec![("build".to_string(), StringOr::String("echo one".to_string()))]);
    let mut two = config("two");
    two.install.command = Some(vec![("build".to_string(), StringOr::String("echo two".to_string()))]);
    let deployer = deployer_of(vec![("/conf/one.toml", one), ("/conf/two.toml", two)]);
    let mut machine = Machine::new();
    assert_eq!(machine.run(&deployer), Ok(()));
    assert_eq!(machine.files["/home/u/.distro/one/bin/build"], "echo one");
    assert_eq!(machine.files["/home/u/.distro/two/bin/build"], "echo two");
    assert_eq!(machine.modes["/home/u/.distro/one/bin/build"], 0o755);
    assert!(machine.files["/home/u/.distro/allrc"]
        .contains("export PATH=/home/u/.distro/one/bin:/home/u/.distro/two/bin:$PATH\n"));
}

#[test]
fn two_configurations_of_one_name_write_the_same_command_and_the_last_wins() {
    let mut one = config("same");
    one.install.command = Some(vec![("build".to_string(), StringOr::String("echo one".to_string()))]);
    let mut two = config("same");
    two.install.command = Some(vec![("build".to_string(), StringOr::String("echo two".to_string()))]);
    let deployer = deployer_of(vec![("/conf/one.toml", one), ("/conf/two.toml", two)]);
    let mut machine = Machine::new();
    assert_eq!(machine.run(&deployer), Ok(()));
    assert_eq!(machine.files["/home/u/.distro/same/bin/build"], "echo two");
    let profile = &machine.files["/home/u/.distro/allrc"];
    assert!(profile.contains("export PATH=/home/u/.distro/same/bin:$PATH\n"));
    assert_eq!(profile.matches("/home/u/.distro/same/bin").count(), 1);
}

#[test]
fn raw_content_reaches_the_target_as_it_is() {
    let mut base = config("base");
    base.install.command = Some(vec![(
        "hello".to_string(),
        StringOr::Object(Content::Raw("hello".to_string())),
    )]);
    base.install.files = Some(vec![(
        "hello.txt".to_string(),
        StringOr::Object(Content::Raw("hello".to_string())),
    )]);
    let deployer = deployer_of(vec![("/conf/base.toml", base)]);
    let mut machine = Machine::new();
    assert_eq!(machine.run(&deployer), Ok(()));
    assert_eq!(machine.files["/home/u/.distro/base/bin/hello"], "hello");
    assert_eq!(machine.modes["/home/u/.distro/base/bin/hello"] & 0o111, 0o111);
    assert_eq!(machine.files["/home/u/.distro/base/hello.txt"], "hello");
}

#[test]
fn a_snippet_from_a_file_is_read_when_it_is_installed() {
    let mut base = config("base");
    base.install.envrc = Some(vec![
        Content::Raw("greet() { echo hi; }".to_string()),
        Content::File("rc/extra.sh".to_string()),
    ]);
    base.install.command = Some(vec![(
        "tool".to_string(),
        StringOr::Object(Content::File("bin/tool".to_string())),
    )]);
    let deployer = deployer_of(vec![("/conf/base.toml", base)]);
    let mut machine = Machine::new();
    machine.files.insert("/conf/rc/extra.sh".to_string(), "export EXTRA=1".to_string());
    machine.files.insert("/conf/bin/tool".to_string(), "#!/bin/sh\n".to_string());
    assert_eq!(machine.run(&deployer), Ok(()));
    assert_eq!(machine.files["/home/u/.distro/base/bin/tool"], "#!/bin/sh\n");
    assert!(machine.files["/home/u/.distro/allrc"]
        .contains("\ngreet() { echo hi; }\nexport EXTRA=1\nalias uninstall="));
    assert_eq!(
        machine.probes,
        vec![
            "/conf/bin/tool",
            "/home/u/.distro/base/bin/tool",
            "/conf/rc/extra.sh",
            "/home/u/.distro",
        ]
    );
}

#[test]
fn a_deploy_root_that_is_a_file_turns_the_deployment_down() {
    let mut base = config("base");
    base.install.alias = Some(vec![("ll".to_string(), "ls".to_string())]);
    let deployer = deployer_of(vec![("/conf/base.toml", base)]);
    let mut machine = Machine::new();
    machine.files.insert("/home/u/.distro".to_string(), "in the way".to_string());
    assert_eq!(machine.run(&deployer), Err(DeployError::Root("/home/u/.distro".to_string())));
    assert_eq!(machine.changes, Vec::<String>::new());
    assert_eq!(
        DeployError::Root("/home/u/.distro".to_string()).message(),
        "/home/u/.distro is not a directory"
    );
}

#[test]
fn a_failing_effect_breaks_the_run_off_and_keeps_what_was_done() {
    let mut base = config("base");
    base.install.command = Some(vec![
        ("one".to_string(), StringOr::String("1".to_string())),
        ("two".to_string(), StringOr::String("2".to_string())),
        ("three".to_string(), StringOr::String("3".to_string())),
    ]);
    let deployer = deployer_of(vec![("/conf/base.toml", base)]);
    let mut machine = Machine::new();
    machine.refuse_writes_to = Some("/home/u/.distro/base/bin/two".to_string());
    let outcome = machine.run(&deployer);
    assert_eq!(
        outcome,
        Err(DeployError::Apply {
            config_file: "/conf/base.toml".to_string(),
            item: "command two".to_string(),
            cause: "Fail to write file /home/u/.distro/base/bin/two".to_string(),
        })
    );
    assert_eq!(
        outcome.unwrap_err().message(),
        "Fail to install item: /conf/base.toml -> command two: Fail to write file /home/u/.distro/base/bin/two"
    );
    assert_eq!(machine.changes, vec!["write /home/u/.distro/base/bin/one"]);
    assert!(!machine.files.contains_key("/home/u/.distro/allrc"));
}

#[test]
fn failures_after_the_items_are_reported() {
    let deployer = deployer_of(vec![("/conf/base.toml", config("base"))]);
    let mut machine = Machine::new();
    machine.refuse_writes_to = Some("/home/u/.distro/allrc".to_string());
    assert_eq!(
        machine.run(&deployer),
        Err(DeployError::Profile("Fail to write file /home/u/.distro/allrc".to_string()))
    );

    let mut machine = Machine::new();
    machine.files.remove("/home/u/.bashrc");
    assert_eq!(
        machine.run(&deployer),
        Err(DeployError::Startup("Fail to read file /home/u/.bashrc".to_string()))
    );

    let mut machine = Machine::new();
    machine.refuse_writes_to = Some("/home/u/.bashrc".to_string());
    let outcome = machine.run(&deployer);
    assert_eq!(
        outcome,
        Err(DeployError::Startup("Fail to write file /home/u/.bashrc".to_string()))
    );
    assert_eq!(
        outcome.unwrap_err().message(),
        "Fail to setup the startup file: Fail to write file /home/u/.bashrc"
    );
    assert_eq!(
        DeployError::Profile("x".to_string()).message(),
        "Fail to create file: x"
    );
}

#[test]
fn a_reply_of_the_wrong_kind_ends_the_run() {
    let mut base = config("base");
    base.install.command = Some(vec![("one".to_string(), StringOr::String("1".to_string()))]);
    let deployer = deployer_of(vec![("/conf/base.toml", base)]);

    let (mut progress, request) = deployer.start();
    assert_eq!(request, Request::Probe { path: "/home/u/.distro/base/bin/one".to_string() });
    assert_eq!(progress.stage(), Stage::ProbingTarget);
    let request = deployer.deploy(&mut progress, Reply::Text("what".to_string()));
    assert_eq!(request, Request::Finish(Err(DeployError::Protocol)));
    assert_eq!(progress.stage(), Stage::Rejected);
    let request = deployer.deploy(&mut progress, Reply::Kind(PathKind::Missing));
    assert_eq!(request, Request::Finish(Err(DeployError::Protocol)));
    assert_eq!(progress.stage(), Stage::Rejected);

    let (mut progress, _) = deployer.start();
    deployer.deploy(&mut progress, Reply::Kind(PathKind::Missing));
    assert_eq!(progress.stage(), Stage::ProbingRoot);
    let request = deployer.deploy(&mut progress, Reply::Kind(PathKind::Directory));
    assert_eq!(
        request,
        Request::Perform(Effect::Write {
            path: "/home/u/.distro/base/bin/one".to_string(),
            content: "1".to_string(),
            mode: Some(0o755),
        })
    );
    assert_eq!(progress.stage(), Stage::Applying);
    let request = deployer.deploy(&mut progress, Reply::Kind(PathKind::File));
    assert_eq!(request, Request::Finish(Err(DeployError::Protocol)));
    assert_eq!(progress.stage(), Stage::Broken);
    assert_eq!(DeployError::Protocol.message(), "a reply came that answers no request");
}

#[test]
fn checks_and_installation_are_two_halves_of_one_step() {
    let mut base = config("base");
    base.install.command = Some(vec![("one".to_string(), StringOr::String("1".to_string()))]);
    let deployer = deployer_of(vec![("/conf/base.toml", base)]);
    let (mut progress, _) = deployer.start();
    assert_eq!(
        deployer.deploy_all(&mut progress, Reply::Kind(PathKind::Missing)),
        Request::Finish(Err(DeployError::Protocol))
    );
    assert_eq!(progress.stage(), Stage::ProbingTarget);
    assert_eq!(
        deployer.check_all(&mut progress, Reply::Kind(PathKind::Missing)),
        Request::Probe { path: "/home/u/.distro".to_string() }
    );
    let request = deployer.check_all(&mut progress, Reply::Kind(PathKind::Missing));
    assert_eq!(progress.stage(), Stage::Applying);
    assert!(matches!(request, Request::Perform(Effect::Write { .. })));
    assert_eq!(
        deployer.check_all(&mut progress, Reply::Text(String::new())),
        Request::Finish(Err(DeployError::Protocol))
    );
    assert_eq!(progress.stage(), Stage::Applying);
    let request = deployer.deploy_all(&mut progress, Reply::Text(String::new()));
    assert_eq!(progress.stage(), Stage::WritingProfile);
    assert!(matches!(request, Request::Perform(Effect::Write { .. })));
    let request = deployer.deploy_all(&mut progress, Reply::Text(String::new()));
    assert_eq!(request, Request::Perform(Effect::Read { path: "/home/u/.bashrc".to_string() }));
    let request = deployer.deploy_all(&mut progress, Reply::Text("x\n".to_string()));
    assert_eq!(
        request,
        Request::Perform(Effect::Write {
            path: "/home/u/.bashrc".to_string(),
            content: "x\n\n# Config Start\ntest -f /home/u/.distro/allrc && source /home/u/.distro/allrc\n# Config End\n".to_string(),
            mode: None,
        })
    );
    assert_eq!(deployer.deploy_all(&mut progress, Reply::Text(String::new())), Request::Finish(Ok(())));
    assert_eq!(progress.stage(), Stage::Done);
    assert_eq!(
        deployer.deploy(&mut progress, Reply::Text(String::new())),
        Request::Finish(Err(DeployError::Protocol))
    );
}

#[test]
fn a_package_manager_that_cannot_refresh_or_list_fails_the_check_of_the_package() {
    let mut base = config("base");
    base.install.alias = Some(vec![("ll".to_string(), "ls".to_string())]);
    base.install.apt = Some(vec!["curl".to_string()]);
    let deployer = deployer_of(vec![("/conf/base.toml", base)]);

    let mut machine = Machine::new();
    machine.refuse_query = Some("update".to_string());
    assert_eq!(
        machine.run(&deployer),
        Err(DeployError::Validation {
            config_file: "/conf/base.toml".to_string(),
            item: "apt curl".to_string(),
            reason: CheckError::PackageIndex("COMMAND:\n /usr/bin/apt update\n".to_string()),
        })
    );
    assert_eq!(machine.commands, vec!["/usr/bin/apt update"]);
    assert_eq!(machine.changes, Vec::<String>::new());

    let mut machine = Machine::new();
    machine.refuse_query = Some("list".to_string());
    assert_eq!(
        machine.run(&deployer),
        Err(DeployError::Validation {
            config_file: "/conf/base.toml".to_string(),
            item: "apt curl".to_string(),
            reason: CheckError::PackageIndex("COMMAND:\n /usr/bin/apt list\n".to_string()),
        })
    );
    assert_eq!(machine.commands, vec!["/usr/bin/apt update", "/usr/bin/apt list"]);
    assert_eq!(machine.changes, Vec::<String>::new());
}
