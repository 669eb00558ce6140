use vstd::prelude::*;

use crate::dv::{Dv, DvView, Os};
use crate::error::{Entity, Error, ErrorView};
use crate::text::same_text;
use crate::util::conversion_error;
use crate::value::{field, get_field, ScriptValue};

verus! {

/// The interpreter that runs a command.
#[derive(Clone, Copy, Debug, PartialEq, Eq, Structural)]
pub enum ScriptExecutor {
    Sh,
    Bash,
    Powershell,
}

/// The interpreter that goes by `name`, if there is one.
pub open spec fn executor_named(name: Seq<char>) -> Option<ScriptExecutor> {
    if name == "sh"@ {
        Some(ScriptExecutor::Sh)
    } else if name == "bash"@ {
        Some(ScriptExecutor::Bash)
    } else if name == "powershell"@ {
        Some(ScriptExecutor::Powershell)
    } else {
        None
    }
}

/// The interpreter of choice on an operating system.
pub open spec fn default_executor(os: Os) -> ScriptExecutor {
    match os {
        Os::Windows => ScriptExecutor::Powershell,
        _ => ScriptExecutor::Sh,
    }
}

impl ScriptExecutor {
    /// Reads an interpreter's name, in lower case.
    pub fn from_name(name: &str) -> (executor: Option<ScriptExecutor>)
        ensures
            executor == executor_named(name@),
    {
        if same_text(name, "sh") {
            Some(ScriptExecutor::Sh)
        } else if same_text(name, "bash") {
            Some(ScriptExecutor::Bash)
        } else if same_text(name, "powershell") {
            Some(ScriptExecutor::Powershell)
        } else {
            None
        }
    }

    /// The interpreter of choice on `os`.
    pub fn for_os(os: Os) -> (executor: ScriptExecutor)
        ensures
            executor == default_executor(os),
    {
        match os {
            Os::Windows => ScriptExecutor::Powershell,
            _ => ScriptExecutor::Sh,
        }
    }
}

/// How a command is to be run.
#[derive(Clone, Copy, Debug, PartialEq, Eq, Structural)]
pub struct ExecOptions {
    /// Whether to capture the output and hand it back.
    pub reply: bool,
    /// The interpreter to use in place of the one the system suggests.
    pub etor: Option<ScriptExecutor>,
}

impl Default for ExecOptions {
    fn default() -> (options: ExecOptions)
        ensures
            options == (ExecOptions { reply: false, etor: None }),
    {
        ExecOptions { reply: false, etor: None }
    }
}

/// The interpreter that a table asks for under `etor`: none where the
/// name is missing or nil, the named one where it is a known name, and
/// no answer at all where it is anything else.
pub open spec fn etor_of(entries: Seq<(String, ScriptValue)>) -> Option<Option<ScriptExecutor>> {
    match field(entries, "etor"@) {
        None => Some(None),
        Some(ScriptValue::Nil) => Some(None),
        Some(ScriptValue::Text(name)) => match executor_named(name@) {
            Some(executor) => Some(Some(executor)),
            None => None,
        },
        Some(_) => None,
    }
}

/// The options that a script value stands for. A truth value says
/// whether to reply and leaves the interpreter open. A table has to say
/// whether to reply, under `reply`, and may name the interpreter, under
/// `etor`; what else it holds does not count. Nothing else is accepted.
pub open spec fn exec_options_of(value: ScriptValue) -> Option<ExecOptions> {
    match value {
        ScriptValue::Boolean(reply) => Some(ExecOptions { reply, etor: None }),
        ScriptValue::Table(entries) => match (field(entries@, "reply"@), etor_of(entries@)) {
            (Some(ScriptValue::Boolean(reply)), Some(etor)) => Some(ExecOptions { reply, etor }),
            _ => None,
        },
        _ => None,
    }
}

impl ExecOptions {
    /// Reads the options of a command out of a script value.
    pub fn from_value(value: &ScriptValue) -> (r: Result<ExecOptions, Error>)
        ensures
            match r {
                Ok(options) => exec_options_of(*value) == Some(options),
                Err(e) => exec_options_of(*value) is None && e@ == (ErrorView::ConversionError {
                    from: "value"@,
                    to: "ExecOptions"@,
                    message: Some("expected a boolean or a table with reply and etor"@),
                }),
            },
    {
        match value {
            ScriptValue::Boolean(reply) => {
                return Ok(ExecOptions { reply: *reply, etor: None });
            },
            ScriptValue::Table(entries) => {
                let etor = match get_field(entries, "etor") {
                    None => Some(None),
                    Some(ScriptValue::Nil) => Some(None),
                    Some(ScriptValue::Text(name)) => match ScriptExecutor::from_name(
                        name.as_str(),
                    ) {
                        Some(executor) => Some(Some(executor)),
                        None => None,
                    },
                    Some(_) => None,
                };
                match (get_field(entries, "reply"), etor) {
                    (Some(ScriptValue::Boolean(reply)), Some(etor)) => {
                        return Ok(ExecOptions { reply: *reply, etor });
                    },
                    _ => {},
                }
            },
            _ => {},
        }
        Err(
            conversion_error(
                "value",
                "ExecOptions",
                Some("expected a boolean or a table with reply and etor"),
            ),
        )
    }
}

/// What the transport is asked to run.
#[derive(Clone, Debug, PartialEq, Eq)]
pub struct ExecRequest {
    /// The identity to run the command as.
    pub identity: String,
    pub command: String,
    /// Whether to capture the output and hand it back.
    pub reply: bool,
    /// The interpreter to run the command with.
    pub executor: ScriptExecutor,
}

/// Mathematical model of an [`ExecRequest`].
pub struct ExecRequestView {
    pub identity: Seq<char>,
    pub command: Seq<char>,
    pub reply: bool,
    pub executor: ScriptExecutor,
}

impl View for ExecRequest {
    type V = ExecRequestView;

    open spec fn view(&self) -> ExecRequestView {
        ExecRequestView {
            identity: self.identity@,
            command: self.command@,
            reply: self.reply,
            executor: self.executor,
        }
    }
}

/// The operating system of the identity `id`: the one detected on its
/// device. An identity that is not registered has none, nor has one whose
/// device is missing.
pub open spec fn os_of(ctx: DvView, id: Seq<char>) -> Result<Os, ErrorView> {
    if !ctx.users.contains_key(id) {
        Err(ErrorView::NotFound { entity: Entity::Identity, id })
    } else if !ctx.devices.contains_key(ctx.users[id].hid) {
        Err(ErrorView::NotFound { entity: Entity::Device, id: ctx.users[id].hid })
    } else {
        Ok(ctx.devices[ctx.users[id].hid].info.os)
    }
}

/// The request to run `command` as `id`, or why there is none. The
/// interpreter is the one the options name, or else the one of choice on
/// the identity's system.
pub open spec fn exec_plan(ctx: DvView, id: Seq<char>, command: Seq<char>, options: ExecOptions) -> Result<
    ExecRequestView,
    ErrorView,
> {
    match os_of(ctx, id) {
        Ok(os) => Ok(
            ExecRequestView {
                identity: id,
                command,
                reply: options.reply,
                executor: match options.etor {
                    Some(executor) => executor,
                    None => default_executor(os),
                },
            },
        ),
        Err(e) => Err(e),
    }
}

/// In a registry that is well formed every registered identity has an
/// operating system, so a command for it can always be planned.
pub proof fn lemma_registered_can_exec(
    ctx: DvView,
    id: Seq<char>,
    command: Seq<char>,
    options: ExecOptions,
)
    requires
        ctx.wf(),
        ctx.users.contains_key(id),
    ensures
        os_of(ctx, id) is Ok,
        exec_plan(ctx, id, command, options) is Ok,
{
}

/// The model of a system that was looked up.
pub open spec fn os_view(r: Result<Os, Error>) -> Result<Os, ErrorView> {
    match r {
        Ok(os) => Ok(os),
        Err(e) => Err(e@),
    }
}

/// The operations on single identities.
#[derive(Clone, Copy, Debug)]
pub struct Op<'a> {
    ctx: &'a Dv,
}

impl<'a> View for Op<'a> {
    type V = DvView;

    closed spec fn view(&self) -> DvView {
        self.ctx@
    }
}

impl<'a> Op<'a> {
    /// The operations on the identities of `ctx`.
    pub fn new(ctx: &'a Dv) -> (op: Op<'a>)
        ensures
            op@ == ctx@,
    {
        Op { ctx }
    }

    /// The operating system of the identity `uid`.
    pub fn os(&self, uid: &str) -> (r: Result<Os, Error>)
        ensures
            self@.wf(),
            os_view(r) == os_of(self@, uid@),
    {
        let identity = match self.ctx.get_identity(uid) {
            Ok(identity) => identity,
            Err(e) => {
                return Err(e);
            },
        };
        match self.ctx.get_device(identity.hid().as_str()) {
            Ok(device) => Ok(device.info().os),
            Err(e) => Err(e),
        }
    }

    /// Plans running `command` as the identity `uid`.
    pub fn exec(&self, uid: &str, command: &str, options: ExecOptions) -> (r: Result<
        ExecRequest,
        Error,
    >)
        ensures
            self@.wf(),
            match r {
                Ok(request) => exec_plan(self@, uid@, command@, options) == Ok::<
                    ExecRequestView,
                    ErrorView,
                >(request@),
                Err(e) => exec_plan(self@, uid@, command@, options) == Err::<
                    ExecRequestView,
                    ErrorView,
                >(e@),
            },
    {
        let os = match self.os(uid) {
            Ok(os) => os,
            Err(e) => {
                return Err(e);
            },
        };
        let executor = match options.etor {
            Some(executor) => executor,
            None => ScriptExecutor::for_os(os),
        };
        Ok(
            ExecRequest {
                identity: uid.to_owned(),
                command: command.to_owned(),
                reply: options.reply,
                executor,
            },
        )
    }
}

} // verus!
