use vstd::prelude::*;

use crate::error::{Error, ErrorView};
use crate::multi::pipeline::verdict_view;

verus! {

/// The name of a record in the persistent store. Records of different
/// kinds never share a name.
#[derive(Clone, Debug, PartialEq, Eq, Hash)]
pub enum RecordKey {
    /// The marker of a guarded action.
    Once { scope: String, key: String },
    /// The cached body of a download.
    Download { url: String },
}

/// Mathematical model of a [`RecordKey`].
pub enum RecordKeyView {
    Once { scope: Seq<char>, key: Seq<char> },
    Download { url: Seq<char> },
}

impl View for RecordKey {
    type V = RecordKeyView;

    open spec fn view(&self) -> RecordKeyView {
        match *self {
            RecordKey::Once { scope, key } => RecordKeyView::Once { scope: scope@, key: key@ },
            RecordKey::Download { url } => RecordKeyView::Download { url: url@ },
        }
    }
}

/// Whether a guarded action has to run, given what the store holds for
/// it: it runs unless it is marked as done.
pub open spec fn needs_run(record: Option<bool>) -> bool {
    record != Some(true)
}

/// How a guarded action ends: whether to mark it as done, and what the
/// caller gets.
#[derive(Debug)]
pub struct OnceEnd {
    /// Whether the marker is to be written.
    pub mark: bool,
    /// What the call returns.
    pub result: Result<bool, Error>,
}

/// Mathematical model of a [`OnceEnd`].
pub struct OnceEndView {
    pub mark: bool,
    pub result: Result<bool, ErrorView>,
}

impl View for OnceEnd {
    type V = OnceEndView;

    open spec fn view(&self) -> OnceEndView {
        OnceEndView { mark: self.mark, result: verdict_view(self.result) }
    }
}

/// How a guarded action that ran ends. It is marked as done when it
/// came back without a failure, also when it reports that nothing
/// changed; a failure leaves it unmarked. The caller gets what the action
/// returned.
pub open spec fn settled(outcome: Result<bool, ErrorView>) -> OnceEndView {
    OnceEndView { mark: outcome is Ok, result: outcome }
}

/// An action that is guarded by a marker in the persistent store.
#[derive(Clone, Debug)]
pub struct Once {
    id: String,
    key: String,
}

impl View for Once {
    type V = RecordKeyView;

    closed spec fn view(&self) -> RecordKeyView {
        RecordKeyView::Once { scope: self.id@, key: self.key@ }
    }
}

impl Once {
    /// The guard of the action `key` in the scope `id`.
    pub fn new(id: &str, key: &str) -> (once: Once)
        ensures
            once@ == (RecordKeyView::Once { scope: id@, key: key@ }),
    {
        Once { id: id.to_owned(), key: key.to_owned() }
    }

    /// The record that holds the marker.
    pub fn record(&self) -> (record: RecordKey)
        ensures
            record@ == self@,
    {
        RecordKey::Once { scope: self.id.clone(), key: self.key.clone() }
    }

    /// Whether the action has to run, given what the store holds under
    /// [`Once::record`].
    pub fn test(&self, record: Option<bool>) -> (run: bool)
        ensures
            run == needs_run(record),
    {
        match record {
            Some(done) => !done,
            None => true,
        }
    }

    /// What the call returns without invoking the action, where the
    /// action is marked as done: `false`, and no failure. `None` where
    /// the action has to run.
    pub fn skipped(&self, record: Option<bool>) -> (r: Option<Result<bool, Error>>)
        ensures
            r is Some <==> !needs_run(record),
            r matches Some(v) ==> verdict_view(v) == Ok::<bool, ErrorView>(false),
    {
        if self.test(record) {
            None
        } else {
            Some(Ok(false))
        }
    }

    /// Takes what the action returned and says whether to write the
    /// marker and what to return.
    pub fn settle(&self, outcome: Result<bool, Error>) -> (end: OnceEnd)
        ensures
            end@ == settled(verdict_view(outcome)),
    {
        OnceEnd { mark: outcome.is_ok(), result: outcome }
    }
}

/// The record to delete so that the action `key` in the scope `id` runs
/// again.
pub fn refresh(id: &str, key: &str) -> (record: RecordKey)
    ensures
        record@ == (RecordKeyView::Once { scope: id@, key: key@ }),
{
    RecordKey::Once { scope: id.to_owned(), key: key.to_owned() }
}

/// What the store holds under `key`.
pub open spec fn lookup(store: Map<RecordKeyView, bool>, key: RecordKeyView) -> Option<bool> {
    if store.contains_key(key) {
        Some(store[key])
    } else {
        None
    }
}

/// One call of a guarded action, seen from outside: the store after it,
/// whether the action was invoked, and what the call returned.
pub struct OnceRun {
    pub store: Map<RecordKeyView, bool>,
    pub invoked: bool,
    pub result: Result<bool, ErrorView>,
}

/// One call of the guarded action `key` on `store`, where the action, if
/// it is invoked, returns `outcome`. A marked action is not invoked and
/// the call returns `false`.
pub open spec fn once_run(
    store: Map<RecordKeyView, bool>,
    key: RecordKeyView,
    outcome: Result<bool, ErrorView>,
) -> OnceRun {
    if needs_run(lookup(store, key)) {
        let end = settled(outcome);
        OnceRun {
            store: if end.mark {
                store.insert(key, true)
            } else {
                store
            },
            invoked: true,
            result: end.result,
        }
    } else {
        OnceRun { store, invoked: false, result: Ok(false) }
    }
}

/// The store after the marker of `key` was deleted.
pub open spec fn refreshed(store: Map<RecordKeyView, bool>, key: RecordKeyView) -> Map<
    RecordKeyView,
    bool,
> {
    store.remove(key)
}

/// Of two calls with an action that succeeds, the second does not invoke
/// the action and returns `false`; the first invokes it exactly if the
/// action was not marked before. So the action runs once at most, and
/// once where it had not run before.
pub proof fn lemma_once_runs_once(
    store: Map<RecordKeyView, bool>,
    key: RecordKeyView,
    first: bool,
    second: bool,
)
    ensures
        ({
            let one = once_run(store, key, Ok(first));
            let two = once_run(one.store, key, Ok(second));
            &&& one.invoked == needs_run(lookup(store, key))
            &&& needs_run(lookup(store, key)) ==> one.result == Ok::<bool, ErrorView>(first)
            &&& !two.invoked
            &&& two.result == Ok::<bool, ErrorView>(false)
        }),
{
}

/// After a refresh the next call invokes the action, whatever the store
/// held and however earlier calls ended.
pub proof fn lemma_refresh_runs_again(
    store: Map<RecordKeyView, bool>,
    key: RecordKeyView,
    outcome: Result<bool, ErrorView>,
)
    ensures
        once_run(refreshed(store, key), key, outcome).invoked,
        once_run(refreshed(store, key), key, outcome).result == outcome,
{
}

/// A call whose action fails leaves the store as it was and returns the
/// failure, so the next call invokes the action again.
pub proof fn lemma_failure_not_remembered(
    store: Map<RecordKeyView, bool>,
    key: RecordKeyView,
    failure: ErrorView,
    outcome: Result<bool, ErrorView>,
)
    requires
        needs_run(lookup(store, key)),
    ensures
        ({
            let one = once_run(store, key, Err(failure));
            &&& one.invoked
            &&& one.store == store
            &&& one.result == Err::<bool, ErrorView>(failure)
            &&& once_run(one.store, key, outcome).invoked
        }),
{
}

/// A call leaves the markers of every other action alone.
pub proof fn lemma_once_touches_one_record(
    store: Map<RecordKeyView, bool>,
    key: RecordKeyView,
    outcome: Result<bool, ErrorView>,
    other: RecordKeyView,
)
    requires
        other != key,
    ensures
        lookup(once_run(store, key, outcome).store, other) == lookup(store, other),
        lookup(refreshed(store, key), other) == lookup(store, other),
{
}

} // verus!
