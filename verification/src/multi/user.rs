use vstd::prelude::*;

use crate::dv::{
    add_view, identity_of, Access, AccessView, AddOutcome, AddView, Config, ConfigView,
    Detection, DetectionView, DeviceInfo, Dv, DvView, Identity, IdentityView,
};
use crate::error::{Error, ErrorView};
use crate::multi::op::{exec_plan, ExecOptions, ExecRequest, ExecRequestView, Op};
use crate::text::same_text;
use crate::value::ScriptValue;

verus! {

/// The configuration after one more named value of a script's table was
/// read. A truth value under `is_system` says whether the identity is
/// privileged; a text sets the variable of its name; any other value is
/// passed over.
pub open spec fn config_step(config: ConfigView, name: Seq<char>, value: ScriptValue) -> ConfigView {
    match value {
        ScriptValue::Boolean(flag) if name == "is_system"@ => ConfigView {
            is_system: Some(flag),
            ..config
        },
        ScriptValue::Text(text) => ConfigView { vars: config.vars.insert(name, text@), ..config },
        _ => config,
    }
}

/// The configuration that the named values of a script's table add up
/// to, read in order.
pub open spec fn config_of(entries: Seq<(String, ScriptValue)>) -> ConfigView
    decreases entries.len(),
{
    if entries.len() == 0 {
        ConfigView { is_system: None, vars: Map::empty() }
    } else {
        config_step(config_of(entries.drop_last()), entries.last().0@, entries.last().1)
    }
}

/// Reads the configuration of an identity out of the named values of a
/// script's table.
pub fn prepare(entries: &Vec<(String, ScriptValue)>) -> (config: Config)
    ensures
        config@ == config_of(entries@),
{
    let mut config = Config::new();
    let mut i: usize = 0;
    while i < entries.len()
        invariant
            i <= entries.len(),
            config@ == config_of(entries@.take(i as int)),
        decreases entries.len() - i,
    {
        proof {
            assert(entries@.take(i + 1).drop_last() =~= entries@.take(i as int));
        }
        match &entries[i].1 {
            ScriptValue::Boolean(flag) => {
                if same_text(entries[i].0.as_str(), "is_system") {
                    config.set_system(*flag);
                }
            },
            ScriptValue::Text(text) => {
                config.set(entries[i].0.clone(), text.clone());
            },
            _ => {},
        }
        i = i + 1;
    }
    proof {
        assert(entries@.take(i as int) =~= entries@);
    }
    config
}

/// What has to happen before an identity can be registered.
#[derive(Clone, Copy, Debug, PartialEq, Eq, Structural)]
pub enum EnrolPlan {
    /// Open its transport; its device is known.
    Join,
    /// Open its transport and probe its host; it starts a new device.
    Detect,
}

/// What has to happen before `u` can be registered in `ctx`, or the
/// refusal of an id that is taken, for which nothing is to happen.
pub open spec fn enrol_plan(ctx: DvView, u: IdentityView) -> Result<EnrolPlan, ErrorView> {
    if ctx.users.contains_key(u.id) {
        Err(ErrorView::DuplicateIdentity { id: u.id })
    } else if ctx.devices.contains_key(u.hid) {
        Ok(EnrolPlan::Join)
    } else {
        Ok(EnrolPlan::Detect)
    }
}

/// The model of a plan.
pub open spec fn plan_view(r: Result<EnrolPlan, Error>) -> Result<EnrolPlan, ErrorView> {
    match r {
        Ok(plan) => Ok(plan),
        Err(e) => Err(e@),
    }
}

/// The plan says how a registration without a probe ends: an id that is
/// taken is refused with the same failure, an identity that joins a
/// device is added, and one that starts a device comes back with the
/// request to probe. With what a probe found, every identity whose id is
/// free is added.
pub proof fn lemma_plan_foretells(ctx: DvView, u: IdentityView, info: DeviceInfo)
    ensures
        ctx.add_result(u, DetectionView::NotRun) == match enrol_plan(ctx, u) {
            Err(e) => AddView::Failed(e),
            Ok(EnrolPlan::Join) => AddView::Added,
            Ok(EnrolPlan::Detect) => AddView::NeedsDetection(u),
        },
        ctx.add_result(u, DetectionView::Found(info)) == match enrol_plan(ctx, u) {
            Err(e) => AddView::Failed(e),
            Ok(_) => AddView::Added,
        },
{
}

/// The identity of the account that runs the program: it goes by `cur`,
/// is reached locally, and its device is `local`.
pub open spec fn cur_identity(config: ConfigView) -> IdentityView {
    identity_of(
        "cur"@,
        AccessView::Local,
        ConfigView { vars: config.vars.insert("hid"@, "local"@), ..config },
    )
}

/// The identity of a remote account: it goes by the name of its host,
/// which its variable `host` repeats.
pub open spec fn ssh_identity(uid: Seq<char>, config: ConfigView) -> IdentityView {
    identity_of(
        uid,
        AccessView::Remote { host: uid },
        ConfigView { vars: config.vars.insert("host"@, uid), ..config },
    )
}

/// One registered identity, for the operations on it.
#[derive(Clone, Debug)]
pub struct UserWrapper<'a> {
    ctx: &'a Dv,
    uid: String,
}

/// Mathematical model of a [`UserWrapper`].
pub struct UserWrapperView {
    pub ctx: DvView,
    pub uid: Seq<char>,
}

impl<'a> View for UserWrapper<'a> {
    type V = UserWrapperView;

    closed spec fn view(&self) -> UserWrapperView {
        UserWrapperView { ctx: self.ctx@, uid: self.uid@ }
    }
}

impl<'a> UserWrapper<'a> {
    /// The identity `uid` of `ctx`.
    pub fn new(ctx: &'a Dv, uid: String) -> (user: UserWrapper<'a>)
        ensures
            user@ == (UserWrapperView { ctx: ctx@, uid: uid@ }),
    {
        UserWrapper { ctx, uid }
    }

    /// Plans running `commands` as this identity; without options the
    /// output is not captured and the system suggests the interpreter.
    pub fn exec(&self, commands: &str, options: Option<ExecOptions>) -> (r: Result<
        ExecRequest,
        Error,
    >)
        ensures
            ({
                let options = match options {
                    Some(options) => options,
                    None => ExecOptions { reply: false, etor: None },
                };
                match r {
                    Ok(request) => exec_plan(self@.ctx, self@.uid, commands@, options) == Ok::<
                        ExecRequestView,
                        ErrorView,
                    >(request@),
                    Err(e) => exec_plan(self@.ctx, self@.uid, commands@, options) == Err::<
                        ExecRequestView,
                        ErrorView,
                    >(e@),
                }
            }),
    {
        let options = match options {
            Some(options) => options,
            None => ExecOptions::default(),
        };
        Op::new(self.ctx).exec(self.uid.as_str(), commands, options)
    }

    /// The value of the variable `key` of this identity, if it has it.
    pub fn var(&self, key: &str) -> (value: Option<&String>)
        requires
            self@.ctx.users.contains_key(self@.uid),
        ensures
            ({
                let vars = self@.ctx.users[self@.uid].vars;
                match value {
                    Some(v) => vars.contains_key(key@) && vars[key@] == v@,
                    None => !vars.contains_key(key@),
                }
            }),
    {
        match self.ctx.get_identity(self.uid.as_str()) {
            Ok(identity) => identity.var(key),
            Err(_) => None,
        }
    }
}

/// The registered identities, for looking them up and for enrolling
/// new ones.
#[derive(Clone, Copy, Debug)]
pub struct UserManager<'a> {
    ctx: &'a Dv,
}

impl<'a> View for UserManager<'a> {
    type V = DvView;

    closed spec fn view(&self) -> DvView {
        self.ctx@
    }
}

impl<'a> UserManager<'a> {
    /// The identities of `ctx`.
    pub fn new(ctx: &'a Dv) -> (users: UserManager<'a>)
        ensures
            users@ == ctx@,
    {
        UserManager { ctx }
    }

    /// The identity registered under `key`, if there is one.
    pub fn get(&self, key: &str) -> (user: Option<UserWrapper<'a>>)
        ensures
            match user {
                Some(user) => self@.users.contains_key(key@) && user@ == (UserWrapperView {
                    ctx: self@,
                    uid: key@,
                }),
                None => !self@.users.contains_key(key@),
            },
    {
        if self.ctx.contains_identity(key) {
            Some(UserWrapper::new(self.ctx, key.to_owned()))
        } else {
            None
        }
    }

    /// Says what has to happen before `identity` can be registered, or
    /// refuses it because its id is taken.
    pub fn plan(&self, identity: &Identity) -> (r: Result<EnrolPlan, Error>)
        ensures
            plan_view(r) == enrol_plan(self@, identity@),
    {
        if self.ctx.contains_identity(identity.id().as_str()) {
            Err(Error::DuplicateIdentity { id: identity.id().clone() })
        } else if self.ctx.contains_device(identity.hid().as_str()) {
            Ok(EnrolPlan::Join)
        } else {
            Ok(EnrolPlan::Detect)
        }
    }

    /// Registers `identity` with what became of the probe of its host.
    /// An id that is taken is refused as a duplicate and nothing changes.
    pub fn enrol(ctx: &mut Dv, identity: Identity, detection: Detection) -> (r: Result<
        AddOutcome,
        Error,
    >)
        ensures
            final(ctx)@.wf(),
            final(ctx)@ == old(ctx)@.add(identity@, detection@),
            add_view(r) == old(ctx)@.add_result(identity@, detection@),
    {
        ctx.add_identity(identity, detection)
    }

    /// The identity of the account that runs the program.
    pub fn cur(config: Config) -> (identity: Identity)
        ensures
            identity@ == cur_identity(config@),
    {
        let mut config = config;
        config.set("hid".to_owned(), "local".to_owned());
        Identity::new("cur".to_owned(), Access::Local, config)
    }

    /// The identity of the remote account `uid`.
    pub fn ssh(uid: String, config: Config) -> (identity: Identity)
        ensures
            identity@ == ssh_identity(uid@, config@),
    {
        let mut config = config;
        config.set("host".to_owned(), uid.clone());
        Identity::new(uid.clone(), Access::Remote { host: uid }, config)
    }

    /// Registers the account that runs the program, under the id `cur`
    /// and on the device `local`. Where `cur` is registered already the
    /// call is refused as a duplicate and nothing changes.
    pub fn add_cur(ctx: &mut Dv, config: Config, detection: Detection) -> (r: Result<
        AddOutcome,
        Error,
    >)
        ensures
            final(ctx)@.wf(),
            final(ctx)@ == old(ctx)@.add(cur_identity(config@), detection@),
            add_view(r) == old(ctx)@.add_result(cur_identity(config@), detection@),
    {
        Self::enrol(ctx, Self::cur(config), detection)
    }

    /// Registers the remote account `uid`, which is reached on the host
    /// of that name. Where `uid` is registered already the call is
    /// refused as a duplicate and nothing changes.
    pub fn add_ssh(ctx: &mut Dv, uid: String, config: Config, detection: Detection) -> (r: Result<
        AddOutcome,
        Error,
    >)
        ensures
            final(ctx)@.wf(),
            final(ctx)@ == old(ctx)@.add(ssh_identity(uid@, config@), detection@),
            add_view(r) == old(ctx)@.add_result(ssh_identity(uid@, config@), detection@),
    {
        Self::enrol(ctx, Self::ssh(uid, config), detection)
    }
}

} // verus!
