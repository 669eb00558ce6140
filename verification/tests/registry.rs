use dv4lua::dv::{
    Access, AddOutcome, Config, Detection, Device, DeviceInfo, Dv, Identity, Os, PmKind, Vars,
};
use dv4lua::error::{Entity, Error};

fn debian() -> DeviceInfo {
    DeviceInfo { os: Os::Linux, pm: PmKind::Apt }
}

fn windows() -> DeviceInfo {
    DeviceInfo { os: Os::Windows, pm: PmKind::WinGet }
}

fn identity(id: &str, hid: Option<&str>, system: bool) -> Identity {
    let mut config = Config::new();
    if let Some(hid) = hid {
        config.set("hid".to_string(), hid.to_string());
    }
    config.set_system(system);
    Identity::new(id.to_string(), Access::Local, config)
}

#[test]
fn add_identity_rejects_duplicate_id() {
    let mut dv = Dv::new(false);
    let first = dv.add_identity(identity("alice", Some("box"), false), Detection::Found(debian()));
    assert!(matches!(first, Ok(AddOutcome::Added)));
    let second = dv.add_identity(identity("alice", Some("other"), true), Detection::Found(windows()));
    assert_eq!(second.unwrap_err(), Error::DuplicateIdentity { id: "alice".to_string() });
    assert_eq!(dv.get_identity("alice").unwrap().hid(), "box");
    assert!(!dv.get_identity("alice").unwrap().is_system());
    assert!(!dv.contains_device("other"));
    let device = dv.get_device("box").unwrap();
    assert_eq!(device.users(), &vec!["alice".to_string()]);
    assert_eq!(device.system(), None);
    assert_eq!(device.info(), debian());
}

#[test]
fn missing_identity_is_not_found() {
    let dv = Dv::new(false);
    assert!(!dv.contains_identity("nobody"));
    assert_eq!(
        dv.get_identity("nobody").unwrap_err(),
        Error::NotFound { entity: Entity::Identity, id: "nobody".to_string() }
    );
    assert_eq!(
        dv.get_device("nowhere").unwrap_err(),
        Error::NotFound { entity: Entity::Device, id: "nowhere".to_string() }
    );
}

#[test]
fn identities_of_one_host_share_one_device() {
    let mut dv = Dv::new(false);
    let asked = dv.add_identity(identity("root", Some("box"), true), Detection::NotRun);
    let back = match asked {
        Ok(AddOutcome::NeedsDetection(identity)) => identity,
        other => panic!("expected a request to probe, got {:?}", other),
    };
    assert!(!dv.contains_identity("root"));
    assert!(!dv.contains_device("box"));
    assert!(matches!(dv.add_identity(back, Detection::Found(debian())), Ok(AddOutcome::Added)));

    // The second identity joins without a probe, and a probe that comes
    // along is not looked at.
    let second = dv.add_identity(identity("alice", Some("box"), false), Detection::NotRun);
    assert!(matches!(second, Ok(AddOutcome::Added)));
    let third = dv.add_identity(identity("bob", Some("box"), false), Detection::Found(windows()));
    assert!(matches!(third, Ok(AddOutcome::Added)));
    let fourth = dv.add_identity(
        identity("carol", Some("box"), false),
        Detection::Failed("unreachable".to_string()),
    );
    assert!(matches!(fourth, Ok(AddOutcome::Added)));

    let device = dv.get_device("box").unwrap();
    assert_eq!(device.info(), debian());
    assert_eq!(device.system(), Some(&"root".to_string()));
    assert_eq!(
        device.users(),
        &vec!["alice".to_string(), "bob".to_string(), "carol".to_string()]
    );
    assert_eq!(dv.get_identity("alice").unwrap().hid(), dv.get_identity("root").unwrap().hid());
}

#[test]
fn failed_detection_registers_nothing() {
    let mut dv = Dv::new(true);
    let r = dv.add_identity(
        identity("alice", Some("box"), false),
        Detection::Failed("no route to host".to_string()),
    );
    assert_eq!(
        r.unwrap_err(),
        Error::DeviceDetectionFailed { reason: "no route to host".to_string() }
    );
    assert!(!dv.contains_identity("alice"));
    assert!(!dv.contains_device("box"));
    assert!(dv.dry_run());
}

#[test]
fn identity_without_hid_gets_a_device_of_its_own() {
    let mut dv = Dv::new(false);
    let mut config = Config::new();
    config.set("editor".to_string(), "vi".to_string());
    config.set("editor".to_string(), "ed".to_string());
    config.set("pm".to_string(), "pacman".to_string());
    assert_eq!(config.get("editor"), Some(&"ed".to_string()));
    assert_eq!(config.get("shell"), None);
    let access = Access::Remote { host: "example.org".to_string() };
    let alice = Identity::new("alice".to_string(), access.clone(), config);
    assert_eq!(alice.id(), "alice");
    assert_eq!(alice.hid(), "alice");
    assert_eq!(alice.access(), &access);
    assert!(!alice.is_system());
    assert_eq!(alice.pm(), Some(PmKind::Pacman));
    assert_eq!(alice.var("editor"), Some(&"ed".to_string()));
    assert_eq!(alice.var("nothing"), None);
    assert!(matches!(dv.add_identity(alice, Detection::Found(debian())), Ok(AddOutcome::Added)));
    assert!(dv.contains_device("alice"));
}

#[test]
fn later_system_identity_takes_the_slot() {
    let mut dv = Dv::new(false);
    dv.add_identity(identity("root", Some("box"), true), Detection::Found(debian())).unwrap();
    dv.add_identity(identity("admin", Some("box"), true), Detection::NotRun).unwrap();
    let device = dv.get_device("box").unwrap();
    assert_eq!(device.system(), Some(&"admin".to_string()));
    assert_eq!(device.acting(), Some(&"admin".to_string()));
    assert!(device.users().is_empty());
    assert!(dv.contains_identity("root"));
}

#[test]
fn device_enrolls_in_order() {
    let mut device = Device::new(windows());
    assert_eq!(device.acting(), None);
    device.enroll("b".to_string(), false);
    device.enroll("a".to_string(), false);
    assert_eq!(device.acting(), Some(&"b".to_string()));
    device.enroll("s".to_string(), true);
    assert_eq!(device.acting(), Some(&"s".to_string()));
    assert_eq!(device.users(), &vec!["b".to_string(), "a".to_string()]);
}

#[test]
fn names_of_systems_and_package_managers() {
    assert_eq!(PmKind::from_name("apt"), Some(PmKind::Apt));
    assert_eq!(PmKind::from_name("winget"), Some(PmKind::WinGet));
    assert_eq!(PmKind::from_name("Apt"), None);
    assert_eq!(PmKind::from_name(""), None);
    for pm in [
        PmKind::Apk,
        PmKind::Apt,
        PmKind::Pacman,
        PmKind::Yay,
        PmKind::Paru,
        PmKind::Brew,
        PmKind::WinGet,
        PmKind::Unknown,
    ] {
        assert_eq!(PmKind::from_name(pm.name()), Some(pm));
    }
    assert_eq!(Os::Linux.name(), "linux");
    assert_eq!(Os::MacOs.name(), "macos");
    assert_eq!(Os::Windows.name(), "windows");
    assert_eq!(Os::Unknown.name(), "unknown");
}

#[test]
fn vars_keep_the_last_value() {
    let mut vars = Vars::new();
    assert_eq!(vars.get("a"), None);
    vars.set("a".to_string(), "1".to_string());
    vars.set("b".to_string(), "2".to_string());
    vars.set("a".to_string(), "3".to_string());
    assert_eq!(vars.get("a"), Some(&"3".to_string()));
    assert_eq!(vars.get("b"), Some(&"2".to_string()));
}
