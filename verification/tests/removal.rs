use distro_pioneer::deploy::run::{Reply, Request};
use distro_pioneer::deploy::uninstall::{Uninstall, UninstallStage};
use distro_pioneer::deploy::Effect;
use distro_pioneer::error::DeployError;
use distro_pioneer::op::file::PathKind;

#[test]
fn uninstall_where_nothing_was_installed() {
    let (mut removal, request) = Uninstall::start("/home/u");
    assert_eq!(request, Request::Probe { path: "/home/u/.distro".to_string() });
    assert_eq!(removal.stage(), UninstallStage::ProbingRoot);
    let request = removal.step(Reply::Kind(PathKind::Missing));
    assert_eq!(request, Request::Perform(Effect::Read { path: "/home/u/.bashrc".to_string() }));
    let request = removal.step(Reply::Text("export EDITOR=vi\n".to_string()));
    assert_eq!(
        request,
        Request::Perform(Effect::Write {
            path: "/home/u/.bashrc".to_string(),
            content: "export EDITOR=vi\n".to_string(),
            mode: None,
        })
    );
    assert_eq!(removal.step(Reply::Text(String::new())), Request::Finish(Ok(())));
    assert_eq!(removal.stage(), UninstallStage::Done);
}

#[test]
fn uninstall_removes_the_root_and_the_block() {
    let (mut removal, _) = Uninstall::start("/home/u");
    let request = removal.step(Reply::Kind(PathKind::Directory));
    assert_eq!(request, Request::Perform(Effect::Remove { path: "/home/u/.distro".to_string() }));
    assert_eq!(removal.stage(), UninstallStage::Removing);
    let request = removal.step(Reply::Text(String::new()));
    assert_eq!(request, Request::Perform(Effect::Read { path: "/home/u/.bashrc".to_string() }));
    let startup = "a\n\n# Config Start\ntest -f /home/u/.distro/allrc && source /home/u/.distro/allrc\n# Config End\nb\n";
    let request = removal.step(Reply::Text(startup.to_string()));
    assert_eq!(
        request,
        Request::Perform(Effect::Write {
            path: "/home/u/.bashrc".to_string(),
            content: "a\n\nb\n".to_string(),
            mode: None,
        })
    );
    assert_eq!(removal.step(Reply::Text(String::new())), Request::Finish(Ok(())));
}

#[test]
fn uninstall_reports_what_fails() {
    let (mut removal, _) = Uninstall::start("/home/u");
    removal.step(Reply::Kind(PathKind::File));
    assert_eq!(
        removal.step(Reply::Failed("busy".to_string())),
        Request::Finish(Err(DeployError::Remove("busy".to_string())))
    );
    assert_eq!(removal.stage(), UninstallStage::Failed);
    assert_eq!(
        removal.step(Reply::Text(String::new())),
        Request::Finish(Err(DeployError::Protocol))
    );
    assert_eq!(DeployError::Remove("busy".to_string()).message(), "Fail to remove: busy");

    let (mut removal, _) = Uninstall::start("/home/u");
    removal.step(Reply::Kind(PathKind::Missing));
    assert_eq!(
        removal.step(Reply::Failed("no such file".to_string())),
        Request::Finish(Err(DeployError::Startup("no such file".to_string())))
    );

    let (mut removal, _) = Uninstall::start("/home/u");
    assert_eq!(
        removal.step(Reply::Text("?".to_string())),
        Request::Finish(Err(DeployError::Protocol))
    );
}
