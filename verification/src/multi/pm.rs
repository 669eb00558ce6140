use vstd::prelude::*;

use crate::dv::{
    pm_name, DetectionView, Device, DeviceInfo, DeviceView, Dv, DvView, IdentityView, PmKind, Vars,
};
use crate::error::{Entity, Error, ErrorView};
use crate::util::conversion_error;
use crate::value::ScriptValue;

verus! {

/// The packages of one logical install, spelled for each package
/// manager that needs its own names.
#[derive(Clone, Debug)]
pub struct Packages {
    all: Option<String>,
    named: Vars,
}

/// Mathematical model of [`Packages`].
pub struct PackagesView {
    /// The names for every package manager that has none of its own.
    pub all: Option<Seq<char>>,
    /// The names for single package managers, by the manager's name.
    pub named: Map<Seq<char>, Seq<char>>,
}

impl PackagesView {
    /// The names to hand to the package manager `pm`, if there are any.
    pub open spec fn select(self, pm: PmKind) -> Option<Seq<char>> {
        if self.named.contains_key(pm_name(pm)) {
            Some(self.named[pm_name(pm)])
        } else {
            self.all
        }
    }
}

impl View for Packages {
    type V = PackagesView;

    closed spec fn view(&self) -> PackagesView {
        PackagesView { all: self.all.deep_view(), named: self.named@ }
    }
}

/// The names that a table gives to single package managers, if every
/// value in it is a text; a later value for one name replaces an earlier.
pub open spec fn names_of(entries: Seq<(String, ScriptValue)>) -> Option<
    Map<Seq<char>, Seq<char>>,
>
    decreases entries.len(),
{
    if entries.len() == 0 {
        Some(Map::empty())
    } else {
        match (names_of(entries.drop_last()), entries.last().1) {
            (Some(named), ScriptValue::Text(names)) => Some(
                named.insert(entries.last().0@, names@),
            ),
            _ => None,
        }
    }
}

/// The packages that a script value stands for: a text names them for
/// every package manager, a table of texts for each manager by its name.
pub open spec fn packages_of(value: ScriptValue) -> Option<PackagesView> {
    match value {
        ScriptValue::Text(names) => Some(PackagesView { all: Some(names@), named: Map::empty() }),
        ScriptValue::Table(entries) => match names_of(entries@) {
            Some(named) => Some(PackagesView { all: None, named }),
            None => None,
        },
        _ => None,
    }
}

impl Packages {
    /// No package at all.
    pub fn new() -> (packages: Packages)
        ensures
            packages@ == (PackagesView { all: None, named: Map::empty() }),
    {
        Packages { all: None, named: Vars::new() }
    }

    /// The same names for every package manager.
    pub fn all(names: String) -> (packages: Packages)
        ensures
            packages@ == (PackagesView { all: Some(names@), named: Map::empty() }),
    {
        Packages { all: Some(names), named: Vars::new() }
    }

    /// Gives the package manager `pm` names of its own.
    pub fn set(&mut self, pm: PmKind, names: String)
        ensures
            final(self)@ == (PackagesView {
                named: old(self)@.named.insert(pm_name(pm), names@),
                ..old(self)@
            }),
    {
        self.named.set(pm.name().to_owned(), names);
    }

    /// The names to hand to the package manager `pm`, if there are any.
    pub fn select(&self, pm: PmKind) -> (names: Option<&String>)
        ensures
            names.deep_view() == self@.select(pm),
    {
        match self.named.get(pm.name()) {
            Some(names) => Some(names),
            None => match &self.all {
                Some(names) => Some(names),
                None => None,
            },
        }
    }

    /// Reads the packages of an install out of a script value.
    pub fn from_value(value: &ScriptValue) -> (r: Result<Packages, Error>)
        ensures
            match r {
                Ok(packages) => packages_of(*value) == Some(packages@),
                Err(e) => packages_of(*value) is None && e@ == (ErrorView::ConversionError {
                    from: "value"@,
                    to: "Packages"@,
                    message: Some("expected package names or a table of them"@),
                }),
            },
    {
        match value {
            ScriptValue::Text(names) => {
                return Ok(Packages::all(names.clone()));
            },
            ScriptValue::Table(entries) => {
                let mut named = Vars::new();
                let mut i: usize = 0;
                while i < entries.len()
                    invariant
                        i <= entries.len(),
                        *value == ScriptValue::Table(*entries),
                        names_of(entries@.take(i as int)) == Some(named@),
                    decreases entries.len() - i,
                {
                    proof {
                        assert(entries@.take(i + 1).drop_last() =~= entries@.take(i as int));
                    }
                    match &entries[i].1 {
                        ScriptValue::Text(names) => {
                            named.set(entries[i].0.clone(), names.clone());
                        },
                        _ => {
                            proof {
                                lemma_names_of_none(entries@, i as int);
                            }
                            return Err(
                                conversion_error(
                                    "value",
                                    "Packages",
                                    Some("expected package names or a table of them"),
                                ),
                            );
                        },
                    }
                    i = i + 1;
                }
                proof {
                    assert(entries@.take(i as int) =~= entries@);
                }
                return Ok(Packages { all: None, named });
            },
            _ => {},
        }
        Err(conversion_error("value", "Packages", Some("expected package names or a table of them")))
    }
}

/// A table with a value that is no text gives no names.
proof fn lemma_names_of_none(entries: Seq<(String, ScriptValue)>, i: int)
    requires
        0 <= i < entries.len(),
        !(entries[i].1 is Text),
    ensures
        names_of(entries) is None,
    decreases entries.len(),
{
    if i < entries.len() - 1 {
        assert(entries.drop_last()[i] == entries[i]);
        lemma_names_of_none(entries.drop_last(), i);
    }
}

/// Who acts for a device, and with which package manager.
#[derive(Clone, Debug, PartialEq, Eq)]
pub struct PmTarget {
    /// The package manager detected on the device.
    pub manager: PmKind,
    /// The identity that runs it.
    pub identity: String,
}

/// Mathematical model of a [`PmTarget`].
pub struct PmTargetView {
    pub manager: PmKind,
    pub identity: Seq<char>,
}

impl View for PmTarget {
    type V = PmTargetView;

    open spec fn view(&self) -> PmTargetView {
        PmTargetView { manager: self.manager, identity: self.identity@ }
    }
}

/// Who acts for `device`, filed under `name`: its privileged identity,
/// or else the ordinary identity that was added first, with the package
/// manager detected on the device. A device without identities has
/// nobody to act for it.
pub open spec fn target_of(device: DeviceView, name: Seq<char>) -> Result<PmTargetView, ErrorView> {
    match device.acting() {
        Some(identity) => Ok(PmTargetView { manager: device.info.pm, identity }),
        None => Err(ErrorView::NoActingIdentity { device: name }),
    }
}

/// Who acts for the device filed under `name` in `ctx`, or why nobody
/// does.
pub open spec fn acting_for(ctx: DvView, name: Seq<char>) -> Result<PmTargetView, ErrorView> {
    if ctx.devices.contains_key(name) {
        target_of(ctx.devices[name], name)
    } else {
        Err(ErrorView::NotFound { entity: Entity::Device, id: name })
    }
}

/// The model of a choice of target.
pub open spec fn target_view(r: Result<PmTarget, Error>) -> Result<PmTargetView, ErrorView> {
    match r {
        Ok(target) => Ok(target@),
        Err(e) => Err(e@),
    }
}

/// Picks the identity that acts for `device`, which is filed under
/// `name`.
pub fn pm_target(device: &Device, name: &str) -> (r: Result<PmTarget, Error>)
    ensures
        target_view(r) == target_of(device@, name@),
{
    match device.acting() {
        Some(identity) => Ok(PmTarget { manager: device.info().pm, identity: identity.clone() }),
        None => Err(Error::NoActingIdentity { device: name.to_owned() }),
    }
}

/// Finds the device `device` and picks the identity that acts for it.
pub fn with_pm(ctx: &Dv, device: &str) -> (r: Result<PmTarget, Error>)
    ensures
        target_view(r) == acting_for(ctx@, device@),
{
    match ctx.get_device(device) {
        Ok(found) => pm_target(found, device),
        Err(e) => Err(e),
    }
}

/// A device that nobody has joined has nobody to act for it. On a device
/// without a privileged identity the ordinary identity that was added
/// first acts, however many were added after it; a privileged identity
/// acts before any ordinary one.
pub proof fn lemma_acting_identity(
    info: DeviceInfo,
    name: Seq<char>,
    ids: Seq<Seq<char>>,
    id: Seq<char>,
)
    requires
        ids.len() > 0,
    ensures
        target_of(DeviceView::new(info), name) == Err::<PmTargetView, ErrorView>(
            ErrorView::NoActingIdentity { device: name },
        ),
        target_of(DeviceView { info, system: None, users: ids }, name) == Ok::<
            PmTargetView,
            ErrorView,
        >(PmTargetView { manager: info.pm, identity: ids[0] }),
        target_of(DeviceView { info, system: None, users: ids }.enroll(id, false), name)
            == target_of(DeviceView { info, system: None, users: ids }, name),
        target_of(DeviceView { info, system: None, users: ids }.enroll(id, true), name) == Ok::<
            PmTargetView,
            ErrorView,
        >(PmTargetView { manager: info.pm, identity: id }),
{
}

/// Of two ordinary identities registered on a new host, the one that was
/// registered first acts for the device, with the package manager that
/// was detected when it started the device.
pub proof fn lemma_first_registered_acts(
    before: DvView,
    first: IdentityView,
    info: DeviceInfo,
    second: IdentityView,
    again: DetectionView,
)
    requires
        !before.users.contains_key(first.id),
        !before.devices.contains_key(first.hid),
        !first.is_system,
        !second.is_system,
        second.hid == first.hid,
    ensures
        acting_for(
            before.add(first, DetectionView::Found(info)).add(second, again),
            first.hid,
        ) == Ok::<PmTargetView, ErrorView>(PmTargetView { manager: info.pm, identity: first.id }),
{
    let mid = before.add(first, DetectionView::Found(info));
    assert(mid == before.enrolled(first, DeviceView::new(info)));
    let started = DeviceView::new(info).enroll(first.id, false);
    assert(mid.devices[first.hid] == started);
    assert(started.users[0] == first.id);
    let after = mid.add(second, again);
    if after != mid {
        assert(after == mid.enrolled(second, started));
        assert(after.devices[first.hid].users[0] == first.id);
    }
}

/// What a package manager is asked to do.
#[derive(Clone, Debug)]
pub enum PmAction {
    /// Install these packages.
    Install(Packages),
    /// Refresh the list of available packages.
    Update,
    /// Bring these packages up to date.
    Upgrade(Packages),
}

/// Mathematical model of a [`PmAction`].
pub enum PmActionView {
    Install(PackagesView),
    Update,
    Upgrade(PackagesView),
}

impl View for PmAction {
    type V = PmActionView;

    open spec fn view(&self) -> PmActionView {
        match *self {
            PmAction::Install(packages) => PmActionView::Install(packages@),
            PmAction::Update => PmActionView::Update,
            PmAction::Upgrade(packages) => PmActionView::Upgrade(packages@),
        }
    }
}

/// What the package-manager backend is asked to do.
#[derive(Clone, Debug)]
pub struct PmRequest {
    /// The package manager to drive.
    pub manager: PmKind,
    /// The identity to drive it as.
    pub identity: String,
    pub action: PmAction,
    /// Whether to answer the package manager's questions with yes.
    pub assume_yes: bool,
    /// Whether to report what would change without changing it.
    pub dry_run: bool,
}

/// Mathematical model of a [`PmRequest`].
pub struct PmRequestView {
    pub manager: PmKind,
    pub identity: Seq<char>,
    pub action: PmActionView,
    pub assume_yes: bool,
    pub dry_run: bool,
}

impl View for PmRequest {
    type V = PmRequestView;

    open spec fn view(&self) -> PmRequestView {
        PmRequestView {
            manager: self.manager,
            identity: self.identity@,
            action: self.action@,
            assume_yes: self.assume_yes,
            dry_run: self.dry_run,
        }
    }
}

impl PmRequestView {
    /// The package names to hand to the package manager: those that the
    /// packages of an installation or an upgrade hold for it, and none
    /// where they hold none or where only the list is refreshed.
    pub open spec fn names(self) -> Seq<char> {
        match self.action {
            PmActionView::Install(packages) | PmActionView::Upgrade(packages) => match packages.select(
                self.manager,
            ) {
                Some(names) => names,
                None => Seq::empty(),
            },
            PmActionView::Update => Seq::empty(),
        }
    }
}

impl PmRequest {
    /// The package names to hand to the package manager.
    pub fn names(&self) -> (names: String)
        ensures
            names@ == self@.names(),
    {
        match &self.action {
            PmAction::Install(packages) | PmAction::Upgrade(packages) => match packages.select(
                self.manager,
            ) {
                Some(names) => names.clone(),
                None => String::new(),
            },
            PmAction::Update => String::new(),
        }
    }
}

/// The request that asks the package manager of the device `device` for
/// `action`, or why there is none. The acting identity of the device runs
/// it, its questions are answered with yes, and the request carries the
/// dry-run flag of `ctx`.
pub open spec fn pm_plan(ctx: DvView, device: Seq<char>, action: PmActionView) -> Result<
    PmRequestView,
    ErrorView,
> {
    match acting_for(ctx, device) {
        Ok(target) => Ok(
            PmRequestView {
                manager: target.manager,
                identity: target.identity,
                action,
                assume_yes: true,
                dry_run: ctx.dry_run,
            },
        ),
        Err(e) => Err(e),
    }
}

/// The request that asks for `action` as the identity `uid` itself, with
/// the package manager detected on that identity's device, or why there
/// is none: the identity has to be registered and its device known.
pub open spec fn pm_plan_as(ctx: DvView, uid: Seq<char>, action: PmActionView) -> Result<
    PmRequestView,
    ErrorView,
> {
    if !ctx.users.contains_key(uid) {
        Err(ErrorView::NotFound { entity: Entity::Identity, id: uid })
    } else if !ctx.devices.contains_key(ctx.users[uid].hid) {
        Err(ErrorView::NotFound { entity: Entity::Device, id: ctx.users[uid].hid })
    } else {
        Ok(
            PmRequestView {
                manager: ctx.devices[ctx.users[uid].hid].info.pm,
                identity: uid,
                action,
                assume_yes: true,
                dry_run: ctx.dry_run,
            },
        )
    }
}

/// The model of a planned request.
pub open spec fn request_view(r: Result<PmRequest, Error>) -> Result<PmRequestView, ErrorView> {
    match r {
        Ok(request) => Ok(request@),
        Err(e) => Err(e@),
    }
}

/// The package-manager operations on the devices of a registry.
#[derive(Clone, Copy, Debug)]
pub struct Pm<'a> {
    ctx: &'a Dv,
}

impl<'a> View for Pm<'a> {
    type V = DvView;

    closed spec fn view(&self) -> DvView {
        self.ctx@
    }
}

impl<'a> Pm<'a> {
    /// The package-manager operations on the devices of `ctx`.
    pub fn new(ctx: &'a Dv) -> (pm: Pm<'a>)
        ensures
            pm@ == ctx@,
    {
        Pm { ctx }
    }

    fn plan(&self, device: &str, action: PmAction) -> (r: Result<PmRequest, Error>)
        ensures
            request_view(r) == pm_plan(self@, device@, action@),
    {
        match with_pm(self.ctx, device) {
            Ok(target) => Ok(
                PmRequest {
                    manager: target.manager,
                    identity: target.identity,
                    action,
                    assume_yes: true,
                    dry_run: self.ctx.dry_run(),
                },
            ),
            Err(e) => Err(e),
        }
    }

    /// Plans the installation of `packages` on the device `device`.
    pub fn install(&self, device: &str, packages: Packages) -> (r: Result<PmRequest, Error>)
        ensures
            request_view(r) == pm_plan(self@, device@, PmActionView::Install(packages@)),
    {
        self.plan(device, PmAction::Install(packages))
    }

    /// Plans the installation of `packages` as the identity `uid`
    /// itself, whoever acts for its device.
    pub fn install_as(&self, uid: &str, packages: Packages) -> (r: Result<PmRequest, Error>)
        ensures
            request_view(r) == pm_plan_as(self@, uid@, PmActionView::Install(packages@)),
    {
        let identity = match self.ctx.get_identity(uid) {
            Ok(identity) => identity,
            Err(e) => {
                return Err(e);
            },
        };
        match self.ctx.get_device(identity.hid().as_str()) {
            Ok(device) => Ok(
                PmRequest {
                    manager: device.info().pm,
                    identity: uid.to_owned(),
                    action: PmAction::Install(packages),
                    assume_yes: true,
                    dry_run: self.ctx.dry_run(),
                },
            ),
            Err(e) => Err(e),
        }
    }

    /// Plans a refresh of the package list on the device `device`.
    pub fn update(&self, device: &str) -> (r: Result<PmRequest, Error>)
        ensures
            request_view(r) == pm_plan(self@, device@, PmActionView::Update),
    {
        self.plan(device, PmAction::Update)
    }

    /// Plans bringing `packages` up to date on the device `device`.
    pub fn upgrade(&self, device: &str, packages: Packages) -> (r: Result<PmRequest, Error>)
        ensures
            request_view(r) == pm_plan(self@, device@, PmActionView::Upgrade(packages@)),
    {
        self.plan(device, PmAction::Upgrade(packages))
    }
}

/// On a registry that is well formed, the identity that acts for a
/// device is registered and belongs to that device.
pub proof fn lemma_acting_is_registered(ctx: DvView, device: Seq<char>)
    requires
        ctx.wf(),
        acting_for(ctx, device) is Ok,
    ensures
        ctx.users.contains_key(acting_for(ctx, device)->Ok_0.identity),
        ctx.users[acting_for(ctx, device)->Ok_0.identity].hid == device,
{
    assert(ctx.device_ok(device));
    let dev = ctx.devices[device];
    if dev.system is None {
        assert(ctx.users.contains_key(dev.users[0]));
    }
}

/// Every request to a package manager carries the dry-run flag of the
/// registry it was planned from, and the flag has no part in who acts or
/// in what is asked.
pub proof fn lemma_pm_dry_run_carried(ctx: DvView, device: Seq<char>, action: PmActionView)
    ensures
        pm_plan(ctx, device, action) matches Ok(request) ==> request.dry_run == ctx.dry_run,
        ({
            let other = DvView { dry_run: !ctx.dry_run, ..ctx };
            match (pm_plan(ctx, device, action), pm_plan(other, device, action)) {
                (Ok(a), Ok(b)) => b == PmRequestView { dry_run: !ctx.dry_run, ..a },
                (Err(a), Err(b)) => a == b,
                _ => false,
            }
        }),
{
}

} // verus!
