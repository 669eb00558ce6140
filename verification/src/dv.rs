use vstd::prelude::*;

use crate::assoc::{absent_from, as_map, lemma_find_absent, lemma_find_at, lemma_push, lemma_update};
use crate::error::{Entity, Error, ErrorView};
use crate::text::{position, same_text};

verus! {

/// The operating system found on a device.
#[derive(Clone, Copy, Debug, PartialEq, Eq, Structural)]
pub enum Os {
    Linux,
    MacOs,
    Windows,
    Unknown,
}

/// The package manager found on a device.
#[derive(Clone, Copy, Debug, PartialEq, Eq, Structural)]
pub enum PmKind {
    Apk,
    Apt,
    Pacman,
    Yay,
    Paru,
    Brew,
    WinGet,
    Unknown,
}

/// The package manager that goes by `name`, if there is one.
pub open spec fn pm_named(name: Seq<char>) -> Option<PmKind> {
    if name == "apk"@ {
        Some(PmKind::Apk)
    } else if name == "apt"@ {
        Some(PmKind::Apt)
    } else if name == "pacman"@ {
        Some(PmKind::Pacman)
    } else if name == "yay"@ {
        Some(PmKind::Yay)
    } else if name == "paru"@ {
        Some(PmKind::Paru)
    } else if name == "brew"@ {
        Some(PmKind::Brew)
    } else if name == "winget"@ {
        Some(PmKind::WinGet)
    } else if name == "unknown"@ {
        Some(PmKind::Unknown)
    } else {
        None
    }
}

/// The name that a package manager goes by.
pub open spec fn pm_name(pm: PmKind) -> Seq<char> {
    match pm {
        PmKind::Apk => "apk"@,
        PmKind::Apt => "apt"@,
        PmKind::Pacman => "pacman"@,
        PmKind::Yay => "yay"@,
        PmKind::Paru => "paru"@,
        PmKind::Brew => "brew"@,
        PmKind::WinGet => "winget"@,
        PmKind::Unknown => "unknown"@,
    }
}

/// The name that an operating system goes by.
pub open spec fn os_name(os: Os) -> Seq<char> {
    match os {
        Os::Linux => "linux"@,
        Os::MacOs => "macos"@,
        Os::Windows => "windows"@,
        Os::Unknown => "unknown"@,
    }
}

/// The operating system that goes by `name`, if there is one.
pub open spec fn os_named(name: Seq<char>) -> Option<Os> {
    if name == "linux"@ {
        Some(Os::Linux)
    } else if name == "macos"@ {
        Some(Os::MacOs)
    } else if name == "windows"@ {
        Some(Os::Windows)
    } else if name == "unknown"@ {
        Some(Os::Unknown)
    } else {
        None
    }
}

impl Os {
    /// Reads an operating system's name, in lower case.
    pub fn from_name(name: &str) -> (os: Option<Os>)
        ensures
            os == os_named(name@),
    {
        if same_text(name, "linux") {
            Some(Os::Linux)
        } else if same_text(name, "macos") {
            Some(Os::MacOs)
        } else if same_text(name, "windows") {
            Some(Os::Windows)
        } else if same_text(name, "unknown") {
            Some(Os::Unknown)
        } else {
            None
        }
    }

    /// The name of the system, in lower case.
    pub fn name(&self) -> (name: &'static str)
        ensures
            name@ == os_name(*self),
    {
        match self {
            Os::Linux => "linux",
            Os::MacOs => "macos",
            Os::Windows => "windows",
            Os::Unknown => "unknown",
        }
    }
}

impl PmKind {
    /// The name of the package manager, in lower case.
    pub fn name(&self) -> (name: &'static str)
        ensures
            name@ == pm_name(*self),
    {
        match self {
            PmKind::Apk => "apk",
            PmKind::Apt => "apt",
            PmKind::Pacman => "pacman",
            PmKind::Yay => "yay",
            PmKind::Paru => "paru",
            PmKind::Brew => "brew",
            PmKind::WinGet => "winget",
            PmKind::Unknown => "unknown",
        }
    }

    /// Reads a package manager's name, in lower case.
    pub fn from_name(name: &str) -> (pm: Option<PmKind>)
        ensures
            pm == pm_named(name@),
    {
        if same_text(name, "apk") {
            Some(PmKind::Apk)
        } else if same_text(name, "apt") {
            Some(PmKind::Apt)
        } else if same_text(name, "pacman") {
            Some(PmKind::Pacman)
        } else if same_text(name, "yay") {
            Some(PmKind::Yay)
        } else if same_text(name, "paru") {
            Some(PmKind::Paru)
        } else if same_text(name, "brew") {
            Some(PmKind::Brew)
        } else if same_text(name, "winget") {
            Some(PmKind::WinGet)
        } else if same_text(name, "unknown") {
            Some(PmKind::Unknown)
        } else {
            None
        }
    }
}

/// What detection learns about a device.
#[derive(Clone, Copy, Debug, PartialEq, Eq, Structural)]
pub struct DeviceInfo {
    pub os: Os,
    pub pm: PmKind,
}

/// Free-form variables, from name to value.
#[derive(Clone, Debug)]
pub struct Vars {
    entries: Vec<(String, String)>,
}

impl View for Vars {
    type V = Map<Seq<char>, Seq<char>>;

    closed spec fn view(&self) -> Map<Seq<char>, Seq<char>> {
        as_map(self.entries.deep_view())
    }
}

impl DeepView for Vars {
    type V = Map<Seq<char>, Seq<char>>;

    open spec fn deep_view(&self) -> Map<Seq<char>, Seq<char>> {
        self@
    }
}

impl Vars {
    /// No variable at all.
    pub fn new() -> (vars: Vars)
        ensures
            vars@ == Map::<Seq<char>, Seq<char>>::empty(),
    {
        let vars = Vars { entries: Vec::new() };
        proof {
            assert(vars.entries.deep_view() =~= Seq::empty());
            assert(vars@ =~= Map::<Seq<char>, Seq<char>>::empty());
        }
        vars
    }

    /// The value of the variable `name`, if it is set.
    pub fn get(&self, name: &str) -> (value: Option<&String>)
        ensures
            match value {
                Some(v) => self@.contains_key(name@) && self@[name@] == v@,
                None => !self@.contains_key(name@),
            },
    {
        let ghost model = self.entries.deep_view();
        match position(&self.entries, name) {
            Some(i) => {
                proof {
                    assert forall|j: int| i < j < model.len() implies (#[trigger] model[j]).0
                        != model[i as int].0 by {
                        assert(self.entries[j].0@ != name@);
                    }
                    lemma_find_at(model, i as int);
                }
                Some(&self.entries[i].1)
            },
            None => {
                proof {
                    assert forall|j: int| 0 <= j < model.len() implies (#[trigger] model[j]).0
                        != name@ by {
                        assert(self.entries[j].0@ != name@);
                    }
                    lemma_find_absent(model, name@);
                }
                None
            },
        }
    }

    /// Every variable with its value, as a list of bindings that stands
    /// for the same map.
    pub fn pairs(&self) -> (pairs: Vec<(String, String)>)
        ensures
            as_map(pairs.deep_view()) == self@,
    {
        let mut pairs: Vec<(String, String)> = Vec::new();
        let mut i: usize = 0;
        while i < self.entries.len()
            invariant
                i <= self.entries.len(),
                pairs.len() == i,
                forall|j: int|
                    0 <= j < i ==> (#[trigger] pairs[j]).0@ == self.entries[j].0@ && pairs[j].1@
                        == self.entries[j].1@,
            decreases self.entries.len() - i,
        {
            pairs.push((self.entries[i].0.clone(), self.entries[i].1.clone()));
            i = i + 1;
        }
        proof {
            assert(pairs.deep_view() =~= self.entries.deep_view());
        }
        pairs
    }

    /// Sets the variable `name` to `value`, in place of what it held.
    pub fn set(&mut self, name: String, value: String)
        ensures
            final(self)@ == old(self)@.insert(name@, value@),
    {
        let ghost before = self.entries.deep_view();
        match position(&self.entries, name.as_str()) {
            Some(i) => {
                proof {
                    assert forall|j: int| i < j < before.len() implies (#[trigger] before[j]).0
                        != before[i as int].0 by {
                        assert(self.entries[j].0@ != name@);
                    }
                    lemma_update(before, i as int, value@);
                }
                self.entries.set(i, (name, value));
                proof {
                    assert(self.entries.deep_view() =~= before.update(
                        i as int,
                        (before[i as int].0, value@),
                    ));
                }
            },
            None => {
                proof {
                    lemma_push(before, name@, value@);
                }
                self.entries.push((name, value));
                proof {
                    assert(self.entries.deep_view() =~= before.push((name@, value@)));
                }
            },
        }
    }
}

/// What a caller supplies when it registers an identity.
#[derive(Clone, Debug)]
pub struct Config {
    /// Whether the identity is the privileged one of its device.
    pub is_system: Option<bool>,
    /// The variables of the identity.
    pub vars: Vars,
}

/// Mathematical model of a [`Config`].
pub struct ConfigView {
    pub is_system: Option<bool>,
    pub vars: Map<Seq<char>, Seq<char>>,
}

impl View for Config {
    type V = ConfigView;

    open spec fn view(&self) -> ConfigView {
        ConfigView { is_system: self.is_system, vars: self.vars@ }
    }
}

impl Config {
    /// A configuration that says nothing.
    pub fn new() -> (config: Config)
        ensures
            config@ == (ConfigView { is_system: None, vars: Map::empty() }),
    {
        Config { is_system: None, vars: Vars::new() }
    }

    /// Sets the variable `name` to `value`, in place of what it held.
    pub fn set(&mut self, name: String, value: String)
        ensures
            final(self)@ == (ConfigView {
                vars: old(self)@.vars.insert(name@, value@),
                ..old(self)@
            }),
    {
        self.vars.set(name, value);
    }

    /// The value of the variable `name`, if it is set.
    pub fn get(&self, name: &str) -> (value: Option<&String>)
        ensures
            match value {
                Some(v) => self@.vars.contains_key(name@) && self@.vars[name@] == v@,
                None => !self@.vars.contains_key(name@),
            },
    {
        self.vars.get(name)
    }

    /// Marks the identity as privileged or ordinary.
    pub fn set_system(&mut self, is_system: bool)
        ensures
            final(self)@ == (ConfigView { is_system: Some(is_system), ..old(self)@ }),
    {
        self.is_system = Some(is_system);
    }
}

/// How an identity is reached.
#[derive(Clone, Debug, PartialEq, Eq)]
pub enum Access {
    /// An account of the machine the program runs on.
    Local,
    /// An account reached over the network.
    Remote { host: String },
}

/// Mathematical model of an [`Access`].
pub enum AccessView {
    Local,
    Remote { host: Seq<char> },
}

impl View for Access {
    type V = AccessView;

    open spec fn view(&self) -> AccessView {
        match *self {
            Access::Local => AccessView::Local,
            Access::Remote { host } => AccessView::Remote { host: host@ },
        }
    }
}

/// One account the program can act as.
#[derive(Clone, Debug)]
pub struct Identity {
    id: String,
    access: Access,
    vars: Vars,
    is_system: bool,
    hid: String,
    pm: Option<PmKind>,
}

/// Mathematical model of an [`Identity`].
pub struct IdentityView {
    pub id: Seq<char>,
    pub access: AccessView,
    pub vars: Map<Seq<char>, Seq<char>>,
    pub is_system: bool,
    pub hid: Seq<char>,
    pub pm: Option<PmKind>,
}

impl View for Identity {
    type V = IdentityView;

    closed spec fn view(&self) -> IdentityView {
        IdentityView {
            id: self.id@,
            access: self.access@,
            vars: self.vars@,
            is_system: self.is_system,
            hid: self.hid@,
            pm: self.pm,
        }
    }
}

impl DeepView for Identity {
    type V = IdentityView;

    open spec fn deep_view(&self) -> IdentityView {
        self@
    }
}

/// The identity that `id`, `access` and `config` describe. Its device is
/// the one named by the variable `hid`. Where that variable is not set
/// the device goes by the identity's own id, so that it is found under
/// the name of its only identity. That name is not kept apart from the
/// names that other identities supply: an identity without `hid` whose
/// id is the name of a device that is there joins that device, as any
/// identity that names it would. The variable `pm`, where it names a
/// package manager, overrides the detected one.
pub open spec fn identity_of(id: Seq<char>, access: AccessView, config: ConfigView) -> IdentityView {
    IdentityView {
        id,
        access,
        vars: config.vars,
        is_system: config.is_system == Some(true),
        hid: if config.vars.contains_key("hid"@) {
            config.vars["hid"@]
        } else {
            id
        },
        pm: if config.vars.contains_key("pm"@) {
            pm_named(config.vars["pm"@])
        } else {
            None
        },
    }
}

/// How an identity is reached where only its configuration says so:
/// over the network on the host that the variable `host` names, or else
/// locally.
pub open spec fn access_of(config: ConfigView) -> AccessView {
    if config.vars.contains_key("host"@) {
        AccessView::Remote { host: config.vars["host"@] }
    } else {
        AccessView::Local
    }
}

/// An identity without the variable `hid` goes to the device of its own
/// id. Where no device has that name it starts one, for which its host
/// is probed; where a device has that name, because an earlier identity
/// named it as its `hid`, it joins that device and nothing is probed.
pub proof fn lemma_own_device(
    ctx: DvView,
    id: Seq<char>,
    access: AccessView,
    config: ConfigView,
    detection: DetectionView,
)
    requires
        !config.vars.contains_key("hid"@),
        !ctx.users.contains_key(id),
    ensures
        identity_of(id, access, config).hid == id,
        ctx.devices.contains_key(id) ==> ctx.add_result(
            identity_of(id, access, config),
            detection,
        ) == AddView::Added && ctx.add(identity_of(id, access, config), detection).devices[id].info
            == ctx.devices[id].info,
        !ctx.devices.contains_key(id) ==> ctx.add_result(
            identity_of(id, access, config),
            DetectionView::NotRun,
        ) == AddView::NeedsDetection(identity_of(id, access, config)),
{
}

impl Identity {
    /// Makes the identity `id` out of how it is reached and what its
    /// configuration says. Without the variable `hid` its device is the
    /// one that goes by `id`.
    pub fn new(id: String, access: Access, config: Config) -> (identity: Identity)
        ensures
            identity@ == identity_of(id@, access@, config@),
    {
        let hid = match config.get("hid") {
            Some(h) => h.clone(),
            None => id.clone(),
        };
        let pm = match config.get("pm") {
            Some(name) => PmKind::from_name(name.as_str()),
            None => None,
        };
        let is_system = match config.is_system {
            Some(flag) => flag,
            None => false,
        };
        Identity { id, access, vars: config.vars, is_system, hid, pm }
    }

    /// Makes the identity `id` out of its configuration alone.
    pub fn from_config(id: String, config: Config) -> (identity: Identity)
        ensures
            identity@ == identity_of(id@, access_of(config@), config@),
    {
        let access = match config.get("host") {
            Some(host) => Access::Remote { host: host.clone() },
            None => Access::Local,
        };
        Identity::new(id, access, config)
    }

    /// The id under which the identity is registered.
    pub fn id(&self) -> (id: &String)
        ensures
            id@ == self@.id,
    {
        &self.id
    }

    /// How the identity is reached.
    pub fn access(&self) -> (access: &Access)
        ensures
            access@ == self@.access,
    {
        &self.access
    }

    /// Whether the identity is the privileged one of its device.
    pub fn is_system(&self) -> (flag: bool)
        ensures
            flag == self@.is_system,
    {
        self.is_system
    }

    /// The id of the device the identity belongs to.
    pub fn hid(&self) -> (hid: &String)
        ensures
            hid@ == self@.hid,
    {
        &self.hid
    }

    /// The package manager that overrides the detected one, if any.
    pub fn pm(&self) -> (pm: Option<PmKind>)
        ensures
            pm == self@.pm,
    {
        self.pm
    }

    /// The variables of the identity.
    pub fn vars(&self) -> (vars: &Vars)
        ensures
            vars@ == self@.vars,
    {
        &self.vars
    }

    /// The value of the variable `name`, if the identity has it.
    pub fn var(&self, name: &str) -> (value: Option<&String>)
        ensures
            match value {
                Some(v) => self@.vars.contains_key(name@) && self@.vars[name@] == v@,
                None => !self@.vars.contains_key(name@),
            },
    {
        self.vars.get(name)
    }
}

/// The identities that share one host, with what was detected on it.
#[derive(Clone, Debug)]
pub struct Device {
    info: DeviceInfo,
    system: Option<String>,
    users: Vec<String>,
}

/// Mathematical model of a [`Device`].
pub struct DeviceView {
    pub info: DeviceInfo,
    /// The id of the privileged identity, if the device has one.
    pub system: Option<Seq<char>>,
    /// The ids of the ordinary identities, in the order they were added.
    pub users: Seq<Seq<char>>,
}

impl DeviceView {
    /// A device that no identity has joined yet.
    pub open spec fn new(info: DeviceInfo) -> DeviceView {
        DeviceView { info, system: None, users: Seq::empty() }
    }

    /// The device after the identity `id` has joined it: a privileged
    /// identity takes the system slot, an ordinary one goes to the end of
    /// the list.
    pub open spec fn enroll(self, id: Seq<char>, is_system: bool) -> DeviceView {
        if is_system {
            DeviceView { system: Some(id), ..self }
        } else {
            DeviceView { users: self.users.push(id), ..self }
        }
    }

    /// The identity that acts for the device: the privileged one if there
    /// is one, else the ordinary one that was added first.
    pub open spec fn acting(self) -> Option<Seq<char>> {
        if self.system is Some {
            self.system
        } else if self.users.len() > 0 {
            Some(self.users[0])
        } else {
            None
        }
    }
}

impl View for Device {
    type V = DeviceView;

    closed spec fn view(&self) -> DeviceView {
        DeviceView {
            info: self.info,
            system: self.system.deep_view(),
            users: self.users.deep_view(),
        }
    }
}

impl DeepView for Device {
    type V = DeviceView;

    open spec fn deep_view(&self) -> DeviceView {
        self@
    }
}

impl Device {
    /// A device that no identity has joined yet.
    pub fn new(info: DeviceInfo) -> (device: Device)
        ensures
            device@ == DeviceView::new(info),
    {
        let device = Device { info, system: None, users: Vec::new() };
        proof {
            assert(device.users.deep_view() =~= Seq::empty());
        }
        device
    }

    /// The operating system and package manager detected on the host.
    pub fn info(&self) -> (info: DeviceInfo)
        ensures
            info == self@.info,
    {
        self.info
    }

    /// Lets the identity `id` join the device.
    pub fn enroll(&mut self, id: String, is_system: bool)
        ensures
            final(self)@ == old(self)@.enroll(id@, is_system),
    {
        if is_system {
            self.system = Some(id);
        } else {
            let ghost before = self.users.deep_view();
            self.users.push(id);
            proof {
                assert(self.users.deep_view() =~= before.push(id@));
            }
        }
    }

    /// The identity that acts for the device, if it has any.
    pub fn acting(&self) -> (id: Option<&String>)
        ensures
            match id {
                Some(id) => self@.acting() == Some(id@),
                None => self@.acting() is None,
            },
    {
        match &self.system {
            Some(system) => Some(system),
            None => {
                if self.users.len() > 0 {
                    Some(&self.users[0])
                } else {
                    None
                }
            },
        }
    }

    /// The privileged identity of the device, if it has one.
    pub fn system(&self) -> (id: Option<&String>)
        ensures
            match id {
                Some(id) => self@.system == Some(id@),
                None => self@.system is None,
            },
    {
        match &self.system {
            Some(system) => Some(system),
            None => None,
        }
    }

    /// The ordinary identities of the device, in the order they were added.
    pub fn users(&self) -> (ids: &Vec<String>)
        ensures
            ids.deep_view() == self@.users,
    {
        &self.users
    }
}

/// What became of the detection that a new device calls for.
#[derive(Clone, Debug, PartialEq, Eq)]
pub enum Detection {
    /// Nobody has probed the host yet.
    NotRun,
    /// The host was probed and answered.
    Found(DeviceInfo),
    /// The host was probed and the probe failed.
    Failed(String),
}

/// Mathematical model of a [`Detection`].
pub enum DetectionView {
    NotRun,
    Found(DeviceInfo),
    Failed(Seq<char>),
}

impl View for Detection {
    type V = DetectionView;

    open spec fn view(&self) -> DetectionView {
        match *self {
            Detection::NotRun => DetectionView::NotRun,
            Detection::Found(info) => DetectionView::Found(info),
            Detection::Failed(reason) => DetectionView::Failed(reason@),
        }
    }
}

/// How a registration ended, where it did not fail.
#[derive(Clone, Debug)]
pub enum AddOutcome {
    /// The identity is registered now.
    Added,
    /// The identity would start a new device, which has to be probed
    /// first. Nothing was registered; the identity comes back for the
    /// next attempt.
    NeedsDetection(Identity),
}

/// Mathematical model of the end of a registration.
pub enum AddView {
    Added,
    NeedsDetection(IdentityView),
    Failed(ErrorView),
}

/// The model of what a registration returned.
pub open spec fn add_view(r: Result<AddOutcome, Error>) -> AddView {
    match r {
        Ok(AddOutcome::Added) => AddView::Added,
        Ok(AddOutcome::NeedsDetection(identity)) => AddView::NeedsDetection(identity@),
        Err(e) => AddView::Failed(e@),
    }
}

/// The registry of identities and devices, with the dry-run flag that
/// every request made from it carries.
#[derive(Debug)]
pub struct Dv {
    dry_run: bool,
    state: Registry,
}

/// The identities and the devices of a registry, in the order in which
/// they were added.
#[derive(Clone, Debug)]
struct Registry {
    devices: Vec<(String, Device)>,
    users: Vec<Identity>,
}

/// Mathematical model of a [`Dv`]: identities by id, devices by host id.
pub struct DvView {
    pub dry_run: bool,
    pub users: Map<Seq<char>, IdentityView>,
    pub devices: Map<Seq<char>, DeviceView>,
}

impl DvView {
    /// The device `hid` holds only identities that are registered and
    /// that name it as their device.
    pub open spec fn device_ok(self, hid: Seq<char>) -> bool {
        &&& self.devices[hid].system matches Some(id) ==> self.users.contains_key(id)
            && self.users[id].hid == hid
        &&& forall|i: int|
            0 <= i < self.devices[hid].users.len() ==> self.users.contains_key(
                #[trigger] self.devices[hid].users[i],
            ) && self.users[self.devices[hid].users[i]].hid == hid
    }

    /// Every identity is filed under its own id and has its device, and
    /// every device holds identities of its own only.
    pub open spec fn wf(self) -> bool {
        &&& forall|id: Seq<char>|
            self.users.contains_key(id) ==> (#[trigger] self.users[id]).id == id
                && self.devices.contains_key(self.users[id].hid)
        &&& forall|hid: Seq<char>| self.devices.contains_key(hid) ==> #[trigger] self.device_ok(hid)
    }

    /// The registry after `u` has joined `device`, which becomes the
    /// device of its host id.
    pub open spec fn enrolled(self, u: IdentityView, device: DeviceView) -> DvView {
        DvView {
            dry_run: self.dry_run,
            users: self.users.insert(u.id, u),
            devices: self.devices.insert(u.hid, device.enroll(u.id, u.is_system)),
        }
    }

    /// The registry after an attempt to register `u`. An id that is taken
    /// changes nothing. An identity whose device exists joins it, whatever
    /// the detection says. An identity that starts a new device is
    /// registered only with what a successful detection found.
    pub open spec fn add(self, u: IdentityView, detection: DetectionView) -> DvView {
        if self.users.contains_key(u.id) {
            self
        } else if self.devices.contains_key(u.hid) {
            self.enrolled(u, self.devices[u.hid])
        } else {
            match detection {
                DetectionView::Found(info) => self.enrolled(u, DeviceView::new(info)),
                _ => self,
            }
        }
    }

    /// How an attempt to register `u` ends.
    pub open spec fn add_result(self, u: IdentityView, detection: DetectionView) -> AddView {
        if self.users.contains_key(u.id) {
            AddView::Failed(ErrorView::DuplicateIdentity { id: u.id })
        } else if self.devices.contains_key(u.hid) {
            AddView::Added
        } else {
            match detection {
                DetectionView::NotRun => AddView::NeedsDetection(u),
                DetectionView::Found(_) => AddView::Added,
                DetectionView::Failed(reason) => AddView::Failed(
                    ErrorView::DeviceDetectionFailed { reason },
                ),
            }
        }
    }
}

/// The bindings, from id to identity, that a list of identities stands for.
pub open spec fn user_entries(users: Seq<Identity>) -> Seq<(Seq<char>, IdentityView)> {
    Seq::new(users.len(), |i: int| (users[i]@.id, users[i]@))
}

impl View for Dv {
    type V = DvView;

    closed spec fn view(&self) -> DvView {
        DvView {
            dry_run: self.dry_run,
            users: as_map(user_entries(self.state.users@)),
            devices: as_map(self.state.devices.deep_view()),
        }
    }
}

/// Registering keeps the registry well formed.
pub proof fn lemma_add_keeps_wf(before: DvView, u: IdentityView, detection: DetectionView)
    requires
        before.wf(),
    ensures
        before.add(u, detection).wf(),
{
    let after = before.add(u, detection);
    if after != before {
        let base = if before.devices.contains_key(u.hid) {
            before.devices[u.hid]
        } else {
            DeviceView::new(detection->Found_0)
        };
        assert(after == before.enrolled(u, base));
        assert(before.devices.contains_key(u.hid) ==> before.device_ok(u.hid));
        assert forall|hid: Seq<char>| after.devices.contains_key(hid) implies #[trigger]
            after.device_ok(hid) by {
            if hid == u.hid {
                let dev = after.devices[hid];
                assert forall|i: int| 0 <= i < dev.users.len() implies after.users.contains_key(
                    #[trigger] dev.users[i],
                ) && after.users[dev.users[i]].hid == hid by {
                    if i < base.users.len() {
                        assert(dev.users[i] == base.users[i]);
                    }
                }
            } else {
                assert(before.device_ok(hid));
            }
        }
    }
}

impl DeviceView {
    /// Whether the identity `id` has a place in the device.
    pub open spec fn holds(self, id: Seq<char>) -> bool {
        self.system == Some(id) || self.users.contains(id)
    }
}

/// No registration takes anything back: every identity that was
/// registered stays as it was, with its way of access and its device, and
/// every device stays, with what was detected on it when it was started.
pub proof fn lemma_registered_stays(
    before: DvView,
    u: IdentityView,
    detection: DetectionView,
    id: Seq<char>,
    hid: Seq<char>,
)
    ensures
        before.add(u, detection).dry_run == before.dry_run,
        before.users.contains_key(id) ==> before.add(u, detection).users.contains_key(id)
            && before.add(u, detection).users[id] == before.users[id],
        before.devices.contains_key(hid) ==> before.add(u, detection).devices.contains_key(hid)
            && before.add(u, detection).devices[hid].info == before.devices[hid].info,
{
}

/// A second registration under an id that is taken is refused as a
/// duplicate, whatever else it says, and leaves every identity and every
/// device as the first registration left them.
pub proof fn lemma_second_registration_refused(
    before: DvView,
    first: IdentityView,
    found: DetectionView,
    second: IdentityView,
    again: DetectionView,
)
    requires
        before.add_result(first, found) == AddView::Added,
        second.id == first.id,
    ensures
        before.add(first, found).add_result(second, again) == AddView::Failed(
            ErrorView::DuplicateIdentity { id: first.id },
        ),
        before.add(first, found).add(second, again) == before.add(first, found),
        before.add(first, found).users[first.id] == first,
{
}

/// Two identities of one host share one device, and no registration adds
/// a second device for that host. The host is probed once at most: only
/// for the identity that starts the device, and not at all where the
/// device was there before. What was detected then stays, whatever comes
/// along with later registrations. Both identities have their place in
/// the device, but for a privileged identity that a later privileged one
/// has replaced.
pub proof fn lemma_one_device_per_host(
    before: DvView,
    first: IdentityView,
    found: DetectionView,
    second: IdentityView,
    again: DetectionView,
)
    requires
        before.add_result(first, found) == AddView::Added,
        second.hid == first.hid,
        second.id != first.id,
        !before.users.contains_key(second.id),
    ensures
        before.add_result(first, DetectionView::NotRun) == if before.devices.contains_key(
            first.hid,
        ) {
            AddView::Added
        } else {
            AddView::NeedsDetection(first)
        },
        ({
            let mid = before.add(first, found);
            let after = mid.add(second, again);
            &&& mid.add_result(second, again) == AddView::Added
            &&& after.devices.dom() == before.devices.dom().insert(first.hid)
            &&& after.devices[first.hid].info == if before.devices.contains_key(first.hid) {
                before.devices[first.hid].info
            } else {
                found->Found_0
            }
            &&& after.users[first.id].hid == after.users[second.id].hid
            &&& after.devices[first.hid].holds(second.id)
            &&& !(first.is_system && second.is_system) ==> after.devices[first.hid].holds(
                first.id,
            )
        }),
{
    let base = if before.devices.contains_key(first.hid) {
        before.devices[first.hid]
    } else {
        DeviceView::new(found->Found_0)
    };
    let mid = before.add(first, found);
    let after = mid.add(second, again);
    assert(mid == before.enrolled(first, base));
    assert(after == mid.enrolled(second, mid.devices[first.hid]));
    assert(after.devices.dom() =~= before.devices.dom().insert(first.hid));
    let started = base.enroll(first.id, first.is_system);
    let joined = started.enroll(second.id, second.is_system);
    assert(after.devices[first.hid] == joined);
    if !first.is_system {
        assert(started.users[started.users.len() - 1] == first.id);
        if !second.is_system {
            assert(joined.users[started.users.len() - 1] == first.id);
        }
    }
    if !second.is_system {
        assert(joined.users[joined.users.len() - 1] == second.id);
    }
}

impl Dv {
    /// Every registry is well formed.
    #[verifier::type_invariant]
    closed spec fn inv(&self) -> bool {
        self@.wf()
    }

    /// An empty registry whose requests will carry `dry_run`.
    pub fn new(dry_run: bool) -> (dv: Dv)
        ensures
            dv@ == (DvView { dry_run, users: Map::empty(), devices: Map::empty() }),
    {
        let state = Registry { devices: Vec::new(), users: Vec::new() };
        proof {
            Self::lemma_empty(dry_run, state);
        }
        Dv { dry_run, state }
    }

    /// A registry without entries stands for the empty maps.
    proof fn lemma_empty(dry_run: bool, state: Registry)
        requires
            state.devices@.len() == 0,
            state.users@.len() == 0,
        ensures
            (Dv { dry_run, state })@ == (DvView {
                dry_run,
                users: Map::empty(),
                devices: Map::empty(),
            }),
            (Dv { dry_run, state })@.wf(),
    {
        let dv = Dv { dry_run, state };
        assert(user_entries(dv.state.users@) =~= Seq::empty());
        assert(dv.state.devices.deep_view() =~= Seq::empty());
        assert(dv@.users =~= Map::empty());
        assert(dv@.devices =~= Map::empty());
    }

    /// Whether requests report what they would change without changing it.
    pub fn dry_run(&self) -> (flag: bool)
        ensures
            self@.wf(),
            flag == self@.dry_run,
    {
        proof {
            use_type_invariant(self);
        }
        self.dry_run
    }

    /// The index of the last identity registered under `id`, if any.
    fn user_position(&self, id: &str) -> (at: Option<usize>)
        ensures
            match at {
                Some(i) => i < self.state.users.len() && self.state.users[i as int]@
                    == self@.users[id@] && self@.users.contains_key(id@),
                None => !self@.users.contains_key(id@),
            },
    {
        let ghost model = user_entries(self.state.users@);
        let mut i: usize = self.state.users.len();
        while i > 0
            invariant
                i <= self.state.users.len(),
                model == user_entries(self.state.users@),
                absent_from(model, id@, i as int),
            decreases i,
        {
            i = i - 1;
            if same_text(self.state.users[i].id.as_str(), id) {
                proof {
                    assert(model[i as int].0 == id@);
                    lemma_find_at(model, i as int);
                }
                return Some(i);
            }
        }
        proof {
            lemma_find_absent(model, id@);
        }
        None
    }

    /// The index of the last device filed under `hid`, if any.
    fn device_position(&self, hid: &str) -> (at: Option<usize>)
        ensures
            match at {
                Some(i) => i < self.state.devices.len() && self.state.devices[i as int].1@
                    == self@.devices[hid@] && self@.devices.contains_key(hid@)
                    && self.state.devices[i as int].0@ == hid@ && absent_from(
                    self.state.devices.deep_view(),
                    hid@,
                    i + 1,
                ),
                None => !self@.devices.contains_key(hid@),
            },
    {
        let ghost model = self.state.devices.deep_view();
        match position(&self.state.devices, hid) {
            Some(i) => {
                proof {
                    assert forall|j: int| i < j < model.len() implies (#[trigger] model[j]).0
                        != hid@ by {
                        assert(self.state.devices[j].0@ != hid@);
                    }
                    lemma_find_at(model, i as int);
                }
                Some(i)
            },
            None => {
                proof {
                    assert forall|j: int| 0 <= j < model.len() implies (#[trigger] model[j]).0
                        != hid@ by {
                        assert(self.state.devices[j].0@ != hid@);
                    }
                    lemma_find_absent(model, hid@);
                }
                None
            },
        }
    }

    /// Whether an identity is registered under `id`.
    pub fn contains_identity(&self, id: &str) -> (found: bool)
        ensures
            self@.wf(),
            found == self@.users.contains_key(id@),
    {
        proof {
            use_type_invariant(self);
        }
        self.user_position(id).is_some()
    }

    /// The identity registered under `id`.
    pub fn get_identity(&self, id: &str) -> (r: Result<&Identity, Error>)
        ensures
            self@.wf(),
            match r {
                Ok(identity) => self@.users.contains_key(id@) && identity@ == self@.users[id@],
                Err(e) => !self@.users.contains_key(id@) && e@ == (ErrorView::NotFound {
                    entity: Entity::Identity,
                    id: id@,
                }),
            },
    {
        proof {
            use_type_invariant(self);
        }
        match self.user_position(id) {
            Some(i) => Ok(&self.state.users[i]),
            None => Err(Error::NotFound { entity: Entity::Identity, id: id.to_owned() }),
        }
    }

    /// Registers `identity`, or says why not.
    ///
    /// An id that is taken is refused and nothing changes. An identity
    /// whose device is known joins it and `detection` is not looked at. An
    /// identity that would start a new device is registered with what
    /// `detection` found; where nothing was probed yet the identity comes
    /// back with the request to probe, and where the probe failed the
    /// failure is returned. In both cases nothing changes.
    pub fn add_identity(&mut self, identity: Identity, detection: Detection) -> (r: Result<
        AddOutcome,
        Error,
    >)
        ensures
            old(self)@.wf(),
            final(self)@.wf(),
            final(self)@ == old(self)@.add(identity@, detection@),
            add_view(r) == old(self)@.add_result(identity@, detection@),
    {
        proof {
            use_type_invariant(&*self);
            lemma_add_keeps_wf(self@, identity@, detection@);
        }
        if self.contains_identity(identity.id.as_str()) {
            return Err(Error::DuplicateIdentity { id: identity.id });
        }
        let found = self.device_position(identity.hid.as_str());
        let info = match (found, detection) {
            (Some(_), _) => None,
            (None, Detection::Found(info)) => Some(info),
            (None, Detection::NotRun) => {
                return Ok(AddOutcome::NeedsDetection(identity));
            },
            (None, Detection::Failed(reason)) => {
                return Err(Error::DeviceDetectionFailed { reason });
            },
        };
        let ghost before = self@;
        let ghost users_before = user_entries(self.state.users@);
        let ghost devices_before = self.state.devices.deep_view();
        let mut state = Registry { devices: Vec::new(), users: Vec::new() };
        proof {
            Self::lemma_empty(self.dry_run, state);
        }
        core::mem::swap(&mut self.state, &mut state);
        match found {
            Some(i) => {
                let (hid, mut device) = state.devices.remove(i);
                device.enroll(identity.id.clone(), identity.is_system);
                proof {
                    lemma_update(devices_before, i as int, device@);
                }
                state.devices.insert(i, (hid, device));
                proof {
                    assert(state.devices.deep_view() =~= devices_before.update(
                        i as int,
                        (devices_before[i as int].0, device@),
                    ));
                }
            },
            None => {
                let mut device = Device::new(info.unwrap());
                device.enroll(identity.id.clone(), identity.is_system);
                proof {
                    lemma_push(devices_before, identity.hid@, device@);
                }
                state.devices.push((identity.hid.clone(), device));
                proof {
                    assert(state.devices.deep_view() =~= devices_before.push(
                        (identity.hid@, device@),
                    ));
                }
            },
        }
        proof {
            lemma_push(users_before, identity@.id, identity@);
        }
        state.users.push(identity);
        proof {
            assert(user_entries(state.users@) =~= users_before.push((identity@.id, identity@)));
            assert((Dv { dry_run: self.dry_run, state })@ == before.add(identity@, detection@));
        }
        self.state = state;
        Ok(AddOutcome::Added)
    }

    /// Whether a device is filed under `hid`.
    pub fn contains_device(&self, hid: &str) -> (found: bool)
        ensures
            self@.wf(),
            found == self@.devices.contains_key(hid@),
    {
        proof {
            use_type_invariant(self);
        }
        self.device_position(hid).is_some()
    }

    /// The device filed under `hid`.
    pub fn get_device(&self, hid: &str) -> (r: Result<&Device, Error>)
        ensures
            self@.wf(),
            match r {
                Ok(device) => self@.devices.contains_key(hid@) && device@ == self@.devices[hid@],
                Err(e) => !self@.devices.contains_key(hid@) && e@ == (ErrorView::NotFound {
                    entity: Entity::Device,
                    id: hid@,
                }),
            },
    {
        proof {
            use_type_invariant(self);
        }
        match self.device_position(hid) {
            Some(i) => Ok(&self.state.devices[i].1),
            None => Err(Error::NotFound { entity: Entity::Device, id: hid.to_owned() }),
        }
    }
}

} // verus!
