use vstd::prelude::*;

use crate::dv::{Dv, DvView};
use crate::error::{Entity, Error, ErrorView};

verus! {

/// One application whose configuration files are managed.
#[derive(Clone, Debug, PartialEq, Eq)]
pub struct DotConfig {
    pub name: String,
}

impl DeepView for DotConfig {
    type V = Seq<char>;

    open spec fn deep_view(&self) -> Seq<char> {
        self.name@
    }
}

impl DotConfig {
    /// The application `name`.
    pub fn new(name: String) -> (config: DotConfig)
        ensures
            config.deep_view() == name@,
    {
        DotConfig { name }
    }
}

/// What the dotfile helper is asked to do.
#[derive(Clone, Debug, PartialEq, Eq)]
pub enum DotAction {
    /// Read the schema at `path` of the identity `user`.
    AddSchema { user: String, path: String },
    /// Take `path` of the identity `user` as a source of files.
    AddSource { user: String, path: String },
    /// Bring the files of `apps` to the identity `dst`.
    Sync { apps: Vec<DotConfig>, dst: String },
    /// Bring the files of `apps` from the identity `dst` back to the source.
    Upload { apps: Vec<DotConfig>, dst: String },
}

/// Mathematical model of a [`DotAction`].
pub enum DotActionView {
    AddSchema { user: Seq<char>, path: Seq<char> },
    AddSource { user: Seq<char>, path: Seq<char> },
    Sync { apps: Seq<Seq<char>>, dst: Seq<char> },
    Upload { apps: Seq<Seq<char>>, dst: Seq<char> },
}

impl View for DotAction {
    type V = DotActionView;

    open spec fn view(&self) -> DotActionView {
        match *self {
            DotAction::AddSchema { user, path } => DotActionView::AddSchema {
                user: user@,
                path: path@,
            },
            DotAction::AddSource { user, path } => DotActionView::AddSource {
                user: user@,
                path: path@,
            },
            DotAction::Sync { apps, dst } => DotActionView::Sync {
                apps: apps.deep_view(),
                dst: dst@,
            },
            DotAction::Upload { apps, dst } => DotActionView::Upload {
                apps: apps.deep_view(),
                dst: dst@,
            },
        }
    }
}

impl DotActionView {
    /// The identity that the action works on.
    pub open spec fn identity(self) -> Seq<char> {
        match self {
            DotActionView::AddSchema { user, .. } => user,
            DotActionView::AddSource { user, .. } => user,
            DotActionView::Sync { dst, .. } => dst,
            DotActionView::Upload { dst, .. } => dst,
        }
    }
}

/// A request to the dotfile helper.
#[derive(Clone, Debug, PartialEq, Eq)]
pub struct DotRequest {
    pub action: DotAction,
    /// How to ask before a file that differs is overwritten; empty never
    /// asks.
    pub confirm: String,
    /// Whether to report what would change without writing anything.
    pub dry_run: bool,
}

/// Mathematical model of a [`DotRequest`].
pub struct DotRequestView {
    pub action: DotActionView,
    pub confirm: Seq<char>,
    pub dry_run: bool,
}

impl View for DotRequest {
    type V = DotRequestView;

    open spec fn view(&self) -> DotRequestView {
        DotRequestView { action: self.action@, confirm: self.confirm@, dry_run: self.dry_run }
    }
}

/// The dotfile operations of a registry, with the way to confirm that
/// was chosen for them.
#[derive(Clone, Debug)]
pub struct Dot<'a> {
    ctx: &'a Dv,
    copy_action: String,
}

/// Mathematical model of a [`Dot`].
pub struct DotView {
    pub ctx: DvView,
    pub copy_action: Seq<char>,
}

impl<'a> View for Dot<'a> {
    type V = DotView;

    closed spec fn view(&self) -> DotView {
        DotView { ctx: self.ctx@, copy_action: self.copy_action@ }
    }
}

/// The request for `action`, or why there is none: the identity it works
/// on has to be registered.
pub open spec fn dot_plan(dot: DotView, action: DotActionView) -> Result<DotRequestView, ErrorView> {
    if dot.ctx.users.contains_key(action.identity()) {
        Ok(DotRequestView { action, confirm: dot.copy_action, dry_run: dot.ctx.dry_run })
    } else {
        Err(ErrorView::NotFound { entity: Entity::Identity, id: action.identity() })
    }
}

/// The model of a planned request.
pub open spec fn dot_view(r: Result<DotRequest, Error>) -> Result<DotRequestView, ErrorView> {
    match r {
        Ok(request) => Ok(request@),
        Err(e) => Err(e@),
    }
}

/// Makes an application of each name, in order.
pub fn dot_configs(names: Vec<String>) -> (apps: Vec<DotConfig>)
    ensures
        apps.deep_view() == names.deep_view(),
{
    let mut apps: Vec<DotConfig> = Vec::new();
    let mut i: usize = 0;
    while i < names.len()
        invariant
            i <= names.len(),
            apps.len() == i,
            forall|j: int| 0 <= j < i ==> (#[trigger] apps[j]).name@ == names[j]@,
        decreases names.len() - i,
    {
        apps.push(DotConfig::new(names[i].clone()));
        i = i + 1;
    }
    proof {
        assert(apps.deep_view() =~= names.deep_view());
    }
    apps
}

impl<'a> Dot<'a> {
    /// The dotfile operations of `ctx`, which never ask for confirmation.
    pub fn new(ctx: &'a Dv) -> (dot: Dot<'a>)
        ensures
            dot@ == (DotView { ctx: ctx@, copy_action: Seq::empty() }),
    {
        Dot { ctx, copy_action: String::new() }
    }

    /// Chooses how to confirm from here on; nothing means never ask.
    pub fn confirm(&mut self, confirm: Option<String>)
        ensures
            final(self)@ == (DotView {
                copy_action: match confirm {
                    Some(c) => c@,
                    None => Seq::empty(),
                },
                ..old(self)@
            }),
    {
        self.copy_action = match confirm {
            Some(c) => c,
            None => String::new(),
        };
    }

    fn plan(&self, identity: &str, action: DotAction) -> (r: Result<DotRequest, Error>)
        requires
            identity@ == action@.identity(),
        ensures
            dot_view(r) == dot_plan(self@, action@),
    {
        if self.ctx.contains_identity(identity) {
            Ok(
                DotRequest {
                    action,
                    confirm: self.copy_action.clone(),
                    dry_run: self.ctx.dry_run(),
                },
            )
        } else {
            Err(Error::NotFound { entity: Entity::Identity, id: identity.to_owned() })
        }
    }

    /// Plans reading the schema at `path` of the identity `user`.
    pub fn add_schema(&self, user: &str, path: &str) -> (r: Result<DotRequest, Error>)
        ensures
            dot_view(r) == dot_plan(
                self@,
                DotActionView::AddSchema { user: user@, path: path@ },
            ),
    {
        self.plan(user, DotAction::AddSchema { user: user.to_owned(), path: path.to_owned() })
    }

    /// Plans taking `path` of the identity `user` as a source of files.
    pub fn add_source(&self, user: &str, path: &str) -> (r: Result<DotRequest, Error>)
        ensures
            dot_view(r) == dot_plan(
                self@,
                DotActionView::AddSource { user: user@, path: path@ },
            ),
    {
        self.plan(user, DotAction::AddSource { user: user.to_owned(), path: path.to_owned() })
    }

    /// Plans bringing the files of the applications `apps` to the
    /// identity `dst`.
    pub fn sync(&self, apps: Vec<String>, dst: &str) -> (r: Result<DotRequest, Error>)
        ensures
            dot_view(r) == dot_plan(
                self@,
                DotActionView::Sync { apps: apps.deep_view(), dst: dst@ },
            ),
    {
        self.plan(dst, DotAction::Sync { apps: dot_configs(apps), dst: dst.to_owned() })
    }

    /// Plans bringing the files of the applications `apps` from the
    /// identity `dst` back to the source.
    pub fn upload(&self, apps: Vec<String>, dst: &str) -> (r: Result<DotRequest, Error>)
        ensures
            dot_view(r) == dot_plan(
                self@,
                DotActionView::Upload { apps: apps.deep_view(), dst: dst@ },
            ),
    {
        self.plan(dst, DotAction::Upload { apps: dot_configs(apps), dst: dst.to_owned() })
    }
}

} // verus!
