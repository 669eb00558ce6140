use vstd::prelude::*;

use crate::dv::{Dv, DvView};
use crate::error::{Entity, Error, ErrorView};
use crate::multi::{paired, sync_pairs, SyncPath, SyncPathView};

verus! {

/// How many transfers of one sync may be under way at a time.
pub const SYNC_FANOUT: usize = 4;

/// What the transport is asked to do for one pair of paths.
#[derive(Clone, Debug, PartialEq, Eq)]
pub struct TransferRequest {
    /// The identity to read from.
    pub src: String,
    pub src_path: String,
    /// The identity to write to.
    pub dst: String,
    pub dst_path: String,
    /// How to ask before a file that differs is overwritten; `None`
    /// never asks.
    pub confirm: Option<String>,
    /// Whether to report what would change without writing anything.
    pub dry_run: bool,
}

/// Mathematical model of a [`TransferRequest`].
pub struct TransferRequestView {
    pub src: Seq<char>,
    pub src_path: Seq<char>,
    pub dst: Seq<char>,
    pub dst_path: Seq<char>,
    pub confirm: Option<Seq<char>>,
    pub dry_run: bool,
}

impl View for TransferRequest {
    type V = TransferRequestView;

    open spec fn view(&self) -> TransferRequestView {
        TransferRequestView {
            src: self.src@,
            src_path: self.src_path@,
            dst: self.dst@,
            dst_path: self.dst_path@,
            confirm: self.confirm.deep_view(),
            dry_run: self.dry_run,
        }
    }
}

/// The verdict of a run after one more transfer has reported: a failure
/// stays, the first failed transfer becomes the failure, and a transfer
/// that changed something makes the run one that changed something.
pub open spec fn merge(verdict: Result<bool, ErrorView>, outcome: Result<bool, Seq<char>>) -> Result<
    bool,
    ErrorView,
> {
    match verdict {
        Err(e) => Err(e),
        Ok(changed) => match outcome {
            Ok(c) => Ok(changed || c),
            Err(reason) => Err(ErrorView::TransferFailed { reason }),
        },
    }
}

/// The verdict of a run whose transfers reported `outcomes`, in order.
pub open spec fn fold(outcomes: Seq<Result<bool, Seq<char>>>) -> Result<bool, ErrorView>
    decreases outcomes.len(),
{
    if outcomes.len() == 0 {
        Ok(false)
    } else {
        merge(fold(outcomes.drop_last()), outcomes.last())
    }
}

/// Where no transfer failed, the run changed something exactly if one of
/// its transfers did.
pub proof fn lemma_fold_any_changed(outcomes: Seq<Result<bool, Seq<char>>>)
    requires
        forall|i: int| 0 <= i < outcomes.len() ==> #[trigger] outcomes[i] is Ok,
    ensures
        fold(outcomes) == Ok::<bool, ErrorView>(
            exists|i: int| 0 <= i < outcomes.len() && #[trigger] outcomes[i] == Ok::<
                bool,
                Seq<char>,
            >(true),
        ),
    decreases outcomes.len(),
{
    if outcomes.len() > 0 {
        let front = outcomes.drop_last();
        lemma_fold_any_changed(front);
        let last = outcomes.len() - 1;
        assert(outcomes.last() == outcomes[last]);
        let any_front = exists|i: int|
            0 <= i < front.len() && #[trigger] front[i] == Ok::<bool, Seq<char>>(true);
        let any = exists|i: int|
            0 <= i < outcomes.len() && #[trigger] outcomes[i] == Ok::<bool, Seq<char>>(true);
        if any_front {
            let i = choose|i: int|
                0 <= i < front.len() && #[trigger] front[i] == Ok::<bool, Seq<char>>(true);
            assert(outcomes[i] == front[i]);
        }
        if any {
            let i = choose|i: int|
                0 <= i < outcomes.len() && #[trigger] outcomes[i] == Ok::<bool, Seq<char>>(true);
            if i < last {
                assert(front[i] == outcomes[i]);
            }
        }
    }
}

/// The first transfer that fails decides the run: its failure is the
/// verdict, whatever the transfers after it report.
pub proof fn lemma_fold_first_failure(outcomes: Seq<Result<bool, Seq<char>>>, k: int)
    requires
        0 <= k < outcomes.len(),
        outcomes[k] is Err,
        forall|i: int| 0 <= i < k ==> #[trigger] outcomes[i] is Ok,
    ensures
        fold(outcomes) == Err::<bool, ErrorView>(
            ErrorView::TransferFailed { reason: outcomes[k]->Err_0 },
        ),
    decreases outcomes.len(),
{
    let front = outcomes.drop_last();
    let last = outcomes.len() - 1;
    assert(outcomes.last() == outcomes[last]);
    if k < last {
        assert(front[k] == outcomes[k]);
        assert forall|i: int| 0 <= i < k implies #[trigger] front[i] is Ok by {
            assert(front[i] == outcomes[i]);
        }
        lemma_fold_first_failure(front, k);
    } else {
        assert forall|i: int| 0 <= i < front.len() implies #[trigger] front[i] is Ok by {
            assert(front[i] == outcomes[i]);
        }
        lemma_fold_any_changed(front);
    }
}

/// A run of transfers between two identities: which pairs are waiting,
/// how many are under way, and what those that have reported add up to.
pub struct SyncRun {
    src: String,
    dst: String,
    confirm: Option<String>,
    dry_run: bool,
    pairs: Vec<(String, String)>,
    limit: usize,
    started: usize,
    tally: Tally,
}

/// What the transfers that have reported add up to.
struct Tally {
    finished: usize,
    changed: bool,
    failure: Option<Error>,
    history: Ghost<Seq<Result<bool, Seq<char>>>>,
}

/// Mathematical model of a [`SyncRun`].
pub struct SyncRunView {
    pub src: Seq<char>,
    pub dst: Seq<char>,
    pub confirm: Option<Seq<char>>,
    pub dry_run: bool,
    /// The pairs of paths to transfer, in order.
    pub pairs: Seq<(Seq<char>, Seq<char>)>,
    /// How many transfers may be under way at a time.
    pub limit: nat,
    /// How many transfers have been handed out.
    pub started: nat,
    /// What the transfers that were handed out have reported, in order.
    pub outcomes: Seq<Result<bool, Seq<char>>>,
}

/// What a run asks of its driver next.
#[derive(Debug)]
pub enum SyncStep {
    /// Begin this transfer and come back at once.
    Start(TransferRequest),
    /// Wait for the oldest transfer under way and report its outcome.
    Wait,
    /// Nothing is left to do: collect the verdict.
    Done,
}

/// Mathematical model of a [`SyncStep`].
pub enum SyncStepView {
    Start(TransferRequestView),
    Wait,
    Done,
}

impl View for SyncStep {
    type V = SyncStepView;

    open spec fn view(&self) -> SyncStepView {
        match *self {
            SyncStep::Start(request) => SyncStepView::Start(request@),
            SyncStep::Wait => SyncStepView::Wait,
            SyncStep::Done => SyncStepView::Done,
        }
    }
}

impl SyncRunView {
    /// What the transfers that have reported add up to.
    pub open spec fn verdict(self) -> Result<bool, ErrorView> {
        fold(self.outcomes)
    }

    /// How many transfers are under way.
    pub open spec fn in_flight(self) -> int {
        self.started - self.outcomes.len()
    }

    /// The run is over once a transfer has failed or every pair has been
    /// transferred.
    pub open spec fn done(self) -> bool {
        self.verdict() is Err || self.outcomes.len() == self.pairs.len()
    }

    /// Whether the next pair may be handed out: the run is not over, a
    /// pair is left, and fewer transfers than the limit are under way.
    pub open spec fn can_start(self) -> bool {
        !self.done() && self.started < self.pairs.len() && self.in_flight() < self.limit
    }

    /// The request for the pair at index `i`.
    pub open spec fn request(self, i: int) -> TransferRequestView {
        TransferRequestView {
            src: self.src,
            src_path: self.pairs[i].0,
            dst: self.dst,
            dst_path: self.pairs[i].1,
            confirm: self.confirm,
            dry_run: self.dry_run,
        }
    }

    /// What the run asks of its driver next.
    pub open spec fn step(self) -> SyncStepView {
        if self.done() {
            SyncStepView::Done
        } else if self.can_start() {
            SyncStepView::Start(self.request(self.started as int))
        } else {
            SyncStepView::Wait
        }
    }

    /// The run after it was asked for its next step.
    pub open spec fn after_step(self) -> SyncRunView {
        if self.can_start() {
            SyncRunView { started: self.started + 1, ..self }
        } else {
            self
        }
    }

    /// The run after the oldest transfer under way has reported. A report
    /// that nothing under way can have made, or that comes after the run
    /// is over, is dropped.
    pub open spec fn completed(self, outcome: Result<bool, Seq<char>>) -> SyncRunView {
        if self.done() || self.in_flight() <= 0 {
            self
        } else {
            SyncRunView { outcomes: self.outcomes.push(outcome), ..self }
        }
    }

    /// No more pairs were handed out than there are, no more reports
    /// taken than pairs handed out, and no more transfers are under way
    /// than the limit, which is at least one.
    pub open spec fn wf(self) -> bool {
        &&& 1 <= self.limit
        &&& self.outcomes.len() <= self.started <= self.pairs.len()
        &&& self.in_flight() <= self.limit
    }
}

/// A run that ended without a failure has handed out every pair and has
/// taken a report for each: as many transfers were attempted as there
/// are pairs.
pub proof fn lemma_every_pair_attempted(run: SyncRunView)
    requires
        run.wf(),
        run.done(),
        run.verdict() is Ok,
    ensures
        run.started == run.pairs.len(),
        run.outcomes.len() == run.pairs.len(),
{
}

/// Every request of a run carries the run's dry-run flag, before and
/// after any step or report; and the flag has no part in what the run
/// asks for next or in its verdict.
pub proof fn lemma_dry_run_carried(run: SyncRunView, outcome: Result<bool, Seq<char>>, i: int)
    ensures
        run.request(i).dry_run == run.dry_run,
        run.after_step().request(i) == run.request(i),
        run.completed(outcome).request(i) == run.request(i),
        ({
            let other = SyncRunView { dry_run: !run.dry_run, ..run };
            &&& other.completed(outcome).verdict() == run.completed(outcome).verdict()
            &&& other.after_step().started == run.after_step().started
            &&& other.done() == run.done()
        }),
{
}

/// The model of what a transfer reported.
pub open spec fn reported(outcome: Result<bool, String>) -> Result<bool, Seq<char>> {
    match outcome {
        Ok(changed) => Ok(changed),
        Err(reason) => Err(reason@),
    }
}

/// The model of a verdict.
pub open spec fn verdict_view(verdict: Result<bool, Error>) -> Result<bool, ErrorView> {
    match verdict {
        Ok(changed) => Ok(changed),
        Err(e) => Err(e@),
    }
}

/// The run that a call starts, or why it starts none. Paths that do not
/// pair up are refused first, then a source identity that is not
/// registered, then a destination identity that is not.
pub open spec fn planned(
    ctx: DvView,
    src: Seq<char>,
    src_paths: SyncPathView,
    dst: Seq<char>,
    dst_paths: SyncPathView,
    confirm: Option<Seq<char>>,
    limit: nat,
) -> Result<SyncRunView, ErrorView> {
    match paired(src_paths, dst_paths) {
        None => Err(ErrorView::InvalidPathShape),
        Some(pairs) => if !ctx.users.contains_key(src) {
            Err(ErrorView::NotFound { entity: Entity::Identity, id: src })
        } else if !ctx.users.contains_key(dst) {
            Err(ErrorView::NotFound { entity: Entity::Identity, id: dst })
        } else {
            Ok(
                SyncRunView {
                    src,
                    dst,
                    confirm,
                    dry_run: ctx.dry_run,
                    pairs,
                    limit,
                    started: 0,
                    outcomes: Seq::empty(),
                },
            )
        },
    }
}

impl View for SyncRun {
    type V = SyncRunView;

    closed spec fn view(&self) -> SyncRunView {
        SyncRunView {
            src: self.src@,
            dst: self.dst@,
            confirm: self.confirm.deep_view(),
            dry_run: self.dry_run,
            pairs: self.pairs.deep_view(),
            limit: self.limit as nat,
            started: self.started as nat,
            outcomes: self.tally.history@,
        }
    }
}

impl SyncRun {
    /// The run keeps within its bounds, and its counters agree with the
    /// reports taken so far.
    #[verifier::type_invariant]
    closed spec fn inv(&self) -> bool {
        &&& self@.wf()
        &&& self.tally.finished == self.tally.history@.len()
        &&& fold(self.tally.history@) == match self.tally.failure {
            Some(e) => Err::<bool, ErrorView>(e@),
            None => Ok::<bool, ErrorView>(self.tally.changed),
        }
    }

    fn start(
        ctx: &Dv,
        src: &str,
        src_paths: &SyncPath,
        dst: &str,
        dst_paths: &SyncPath,
        confirm: Option<String>,
        limit: usize,
    ) -> (r: Result<SyncRun, Error>)
        requires
            1 <= limit,
        ensures
            match r {
                Ok(run) => planned(
                    ctx@,
                    src@,
                    src_paths@,
                    dst@,
                    dst_paths@,
                    confirm.deep_view(),
                    limit as nat,
                ) == Ok::<SyncRunView, ErrorView>(run@),
                Err(e) => planned(
                    ctx@,
                    src@,
                    src_paths@,
                    dst@,
                    dst_paths@,
                    confirm.deep_view(),
                    limit as nat,
                ) == Err::<SyncRunView, ErrorView>(e@),
            },
    {
        let pairs = match sync_pairs(src_paths, dst_paths) {
            Ok(pairs) => pairs,
            Err(e) => {
                return Err(e);
            },
        };
        if !ctx.contains_identity(src) {
            return Err(Error::NotFound { entity: Entity::Identity, id: src.to_owned() });
        }
        if !ctx.contains_identity(dst) {
            return Err(Error::NotFound { entity: Entity::Identity, id: dst.to_owned() });
        }
        Ok(
            SyncRun {
                src: src.to_owned(),
                dst: dst.to_owned(),
                confirm,
                dry_run: ctx.dry_run(),
                pairs,
                limit,
                started: 0,
                tally: Tally {
                    finished: 0,
                    changed: false,
                    failure: None,
                    history: Ghost(Seq::empty()),
                },
            },
        )
    }

    /// What the run asks of its driver next. A transfer that is handed
    /// out counts as under way from here on.
    pub fn step(&mut self) -> (s: SyncStep)
        ensures
            old(self)@.wf(),
            final(self)@.wf(),
            s@ == old(self)@.step(),
            final(self)@ == old(self)@.after_step(),
    {
        proof {
            use_type_invariant(&*self);
        }
        if self.tally.failure.is_some() || self.tally.finished == self.pairs.len() {
            return SyncStep::Done;
        }
        if self.started < self.pairs.len() && self.started - self.tally.finished < self.limit {
            let i = self.started;
            let request = TransferRequest {
                src: self.src.clone(),
                src_path: self.pairs[i].0.clone(),
                dst: self.dst.clone(),
                dst_path: self.pairs[i].1.clone(),
                confirm: match &self.confirm {
                    Some(c) => Some(c.clone()),
                    None => None,
                },
                dry_run: self.dry_run,
            };
            self.started = self.started + 1;
            return SyncStep::Start(request);
        }
        SyncStep::Wait
    }

    /// Takes the report of the oldest transfer under way.
    pub fn complete(&mut self, outcome: Result<bool, String>)
        ensures
            old(self)@.wf(),
            final(self)@.wf(),
            final(self)@ == old(self)@.completed(reported(outcome)),
    {
        proof {
            use_type_invariant(&*self);
        }
        if self.tally.failure.is_some() || self.tally.finished == self.pairs.len() || self.started
            == self.tally.finished {
            return ;
        }
        let ghost history = self.tally.history@.push(reported(outcome));
        proof {
            assert(history.drop_last() =~= self.tally.history@);
        }
        let finished = self.tally.finished + 1;
        let (changed, failure) = match outcome {
            Ok(changed) => (self.tally.changed || changed, None),
            Err(reason) => (self.tally.changed, Some(Error::TransferFailed { reason })),
        };
        self.tally = Tally { finished, changed, failure, history: Ghost(history) };
    }

    /// The verdict of a run that is over; `None` while it is not.
    pub fn finish(self) -> (r: Option<Result<bool, Error>>)
        ensures
            self@.wf(),
            match r {
                Some(verdict) => self@.done() && verdict_view(verdict) == self@.verdict(),
                None => !self@.done(),
            },
    {
        proof {
            use_type_invariant(&self);
        }
        let done = self.tally.finished == self.pairs.len();
        match self.tally.failure {
            Some(e) => Some(Err(e)),
            None => {
                if done {
                    Some(Ok(self.tally.changed))
                } else {
                    None
                }
            },
        }
    }

    /// How many transfers are under way.
    pub fn in_flight(&self) -> (n: usize)
        ensures
            self@.wf(),
            n == self@.in_flight(),
    {
        proof {
            use_type_invariant(self);
        }
        self.started - self.tally.finished
    }
}

/// Starts the run that brings the destination paths of `dst` in line with
/// the source paths of `src`, at most [`SYNC_FANOUT`] transfers at a time.
pub fn sync(
    ctx: &Dv,
    src: &str,
    src_paths: &SyncPath,
    dst: &str,
    dst_paths: &SyncPath,
    confirm: Option<String>,
) -> (r: Result<SyncRun, Error>)
    ensures
        match r {
            Ok(run) => planned(
                ctx@,
                src@,
                src_paths@,
                dst@,
                dst_paths@,
                confirm.deep_view(),
                SYNC_FANOUT as nat,
            ) == Ok::<SyncRunView, ErrorView>(run@),
            Err(e) => planned(
                ctx@,
                src@,
                src_paths@,
                dst@,
                dst_paths@,
                confirm.deep_view(),
                SYNC_FANOUT as nat,
            ) == Err::<SyncRunView, ErrorView>(e@),
        },
{
    SyncRun::start(ctx, src, src_paths, dst, dst_paths, confirm, SYNC_FANOUT)
}

/// Starts the run that copies the source paths of `src` to the
/// destination paths of `dst`, one transfer after the other.
pub fn copy(
    ctx: &Dv,
    src: &str,
    src_paths: &SyncPath,
    dst: &str,
    dst_paths: &SyncPath,
    confirm: Option<String>,
) -> (r: Result<SyncRun, Error>)
    ensures
        match r {
            Ok(run) => planned(
                ctx@,
                src@,
                src_paths@,
                dst@,
                dst_paths@,
                confirm.deep_view(),
                1,
            ) == Ok::<SyncRunView, ErrorView>(run@),
            Err(e) => planned(ctx@, src@, src_paths@, dst@, dst_paths@, confirm.deep_view(), 1)
                == Err::<SyncRunView, ErrorView>(e@),
        },
{
    SyncRun::start(ctx, src, src_paths, dst, dst_paths, confirm, 1)
}

} // verus!
