use vstd::prelude::*;
use crate::error::ConfidentialError;

verus! {

/// The lifecycle of one ephemeral proof context.
#[derive(Clone, Copy, Debug, PartialEq, Eq, Structural)]
pub enum ContextStatus {
    /// Its identity is minted but the ledger has not created it.
    Pending,
    /// The ledger holds the verified sub-proof.
    Created,
    /// The guarded operation consumed it.
    Referenced,
    /// It was reclaimed.
    Closed,
    /// Creating or closing it failed; it is not retried.
    Abandoned,
}

/// The phase of a run. Submitting the guarded operation is the single step
/// from `ContextsStaged` to `Cleanup`; an unrecoverable failure marks the run
/// abandoned and still passes through `Cleanup` for every created context.
#[derive(Clone, Copy, Debug, PartialEq, Eq, Structural)]
pub enum RunPhase {
    /// Contexts are being created, one submission each.
    Draft,
    /// Every context is created; the guarded operation is next.
    ContextsStaged,
    /// The outcome is settled; created contexts are being closed.
    Cleanup,
    /// Nothing is left to submit.
    Done,
}

/// The next ledger submission a run asks for.
#[derive(Clone, Copy, Debug, PartialEq, Eq, Structural)]
pub enum LedgerAction {
    /// Create the context for the sub-proof at `index`.
    CreateContext { index: usize },
    /// Submit the guarded operation, referencing every context.
    SubmitOperation,
    /// Close the context at `index`.
    CloseContext { index: usize },
    /// The run is over.
    Finish,
}

/// What the ledger answered to a submission.
#[derive(Clone, Debug)]
pub enum LedgerOutcome {
    Confirmed { signature: String },
    Failed { message: String },
}

/// One submission of a run and whether the ledger confirmed it, in the order
/// submitted: the position in the journal is the submission's logical time.
#[derive(Clone, Copy, Debug, PartialEq, Eq, Structural)]
pub struct JournalEntry {
    pub action: LedgerAction,
    pub confirmed: bool,
}

/// The abstract state of a run.
#[verifier::ext_equal]
pub struct RunView {
    pub contexts: Seq<ContextStatus>,
    pub phase: RunPhase,
    /// How many contexts reached `Created` (always a prefix, since they are
    /// created in order).
    pub staged: nat,
    /// How many of those the cleanup has attempted to close.
    pub cursor: nat,
    pub abandoned: bool,
    pub failure: Option<ConfidentialError>,
    pub signature: Option<String>,
    pub journal: Seq<JournalEntry>,
    pub cleanup_failures: nat,
}

/// `k` confirmed creations, for contexts `0..k` in order.
pub open spec fn creation_log(k: nat) -> Seq<JournalEntry> {
    Seq::new(
        k,
        |j: int| JournalEntry { action: LedgerAction::CreateContext { index: j as usize }, confirmed: true },
    )
}

impl RunView {
    /// The state a run over `n` contexts starts in.
    pub open spec fn initial(n: nat) -> RunView {
        RunView {
            contexts: Seq::new(n, |j: int| ContextStatus::Pending),
            phase: RunPhase::Draft,
            staged: 0,
            cursor: 0,
            abandoned: false,
            failure: None,
            signature: None,
            journal: Seq::empty(),
            cleanup_failures: 0,
        }
    }

    /// The submission the run asks for next.
    pub open spec fn next_action(self) -> LedgerAction {
        match self.phase {
            RunPhase::Draft => LedgerAction::CreateContext { index: self.staged as usize },
            RunPhase::ContextsStaged => LedgerAction::SubmitOperation,
            RunPhase::Cleanup => LedgerAction::CloseContext { index: self.cursor as usize },
            RunPhase::Done => LedgerAction::Finish,
        }
    }

    /// Where the run goes once the cleanup cursor has moved past `cursor`.
    pub open spec fn after_close(self, status: ContextStatus, confirmed: bool) -> RunView {
        RunView {
            contexts: self.contexts.update(self.cursor as int, status),
            phase: if self.cursor + 1 == self.staged { RunPhase::Done } else { RunPhase::Cleanup },
            cursor: self.cursor + 1,
            journal: self.journal.push(
                JournalEntry { action: LedgerAction::CloseContext { index: self.cursor as usize }, confirmed },
            ),
            cleanup_failures: if confirmed { self.cleanup_failures } else { self.cleanup_failures + 1 },
            ..self
        }
    }

    /// The state after the ledger answered `outcome` to `self.next_action()`.
    pub open spec fn step(self, outcome: LedgerOutcome) -> RunView {
        let n = self.contexts.len();
        match self.phase {
            RunPhase::Draft => {
                let i = self.staged;
                match outcome {
                    LedgerOutcome::Confirmed { .. } => RunView {
                        contexts: self.contexts.update(i as int, ContextStatus::Created),
                        phase: if i + 1 == n { RunPhase::ContextsStaged } else { RunPhase::Draft },
                        staged: i + 1,
                        journal: self.journal.push(
                            JournalEntry { action: LedgerAction::CreateContext { index: i as usize }, confirmed: true },
                        ),
                        ..self
                    },
                    LedgerOutcome::Failed { message } => RunView {
                        contexts: self.contexts.update(i as int, ContextStatus::Abandoned),
                        phase: if i == 0 { RunPhase::Done } else { RunPhase::Cleanup },
                        abandoned: true,
                        failure: Some(ConfidentialError::ContextCreationFailed { index: i as usize, message }),
                        journal: self.journal.push(
                            JournalEntry { action: LedgerAction::CreateContext { index: i as usize }, confirmed: false },
                        ),
                        ..self
                    },
                }
            },
            RunPhase::ContextsStaged => match outcome {
                LedgerOutcome::Confirmed { signature } => RunView {
                    contexts: Seq::new(n, |j: int| ContextStatus::Referenced),
                    phase: RunPhase::Cleanup,
                    signature: Some(signature),
                    journal: self.journal.push(
                        JournalEntry { action: LedgerAction::SubmitOperation, confirmed: true },
                    ),
                    ..self
                },
                LedgerOutcome::Failed { message } => RunView {
                    phase: RunPhase::Cleanup,
                    abandoned: true,
                    failure: Some(ConfidentialError::OperationSubmissionFailed { message }),
                    journal: self.journal.push(
                        JournalEntry { action: LedgerAction::SubmitOperation, confirmed: false },
                    ),
                    ..self
                },
            },
            RunPhase::Cleanup => match outcome {
                LedgerOutcome::Confirmed { .. } => self.after_close(ContextStatus::Closed, true),
                LedgerOutcome::Failed { .. } => self.after_close(ContextStatus::Abandoned, false),
            },
            RunPhase::Done => self,
        }
    }

    /// The shape of a run once its outcome is settled.
    pub open spec fn settled_wf(self) -> bool {
        let n = self.contexts.len();
        let s = self.staged;
        &&& self.journal.len() == s + 1 + self.cursor
        &&& self.journal.subrange(0, s as int) == creation_log(s)
        &&& forall|k: int|
            0 <= k < self.cursor ==> (#[trigger] self.journal[s + 1 + k]).action
                == LedgerAction::CloseContext { index: k as usize }
        &&& forall|k: int|
            0 <= k < self.cursor ==> #[trigger] self.contexts[k] == (if self.journal[s + 1
                + k].confirmed {
                ContextStatus::Closed
            } else {
                ContextStatus::Abandoned
            })
        &&& self.cleanup_failures <= self.cursor
        &&& if self.signature is Some {
            &&& s == n
            &&& !self.abandoned
            &&& self.failure is None
            &&& self.journal[s as int] == JournalEntry {
                action: LedgerAction::SubmitOperation,
                confirmed: true,
            }
            &&& forall|k: int|
                self.cursor <= k < n ==> #[trigger] self.contexts[k] == ContextStatus::Referenced
        } else {
            &&& self.abandoned
            &&& forall|k: int|
                self.cursor <= k < s ==> #[trigger] self.contexts[k] == ContextStatus::Created
            &&& if s == n {
                &&& self.journal[s as int] == JournalEntry {
                    action: LedgerAction::SubmitOperation,
                    confirmed: false,
                }
                &&& self.failure matches Some(ConfidentialError::OperationSubmissionFailed { .. })
            } else {
                &&& self.journal[s as int] == JournalEntry {
                    action: LedgerAction::CreateContext { index: s as usize },
                    confirmed: false,
                }
                &&& self.failure matches Some(ConfidentialError::ContextCreationFailed { index, .. })
                    && index == s
                &&& self.contexts[s as int] == ContextStatus::Abandoned
                &&& forall|k: int| s < k < n ==> #[trigger] self.contexts[k] == ContextStatus::Pending
            }
        }
    }

    /// Every state a run can reach.
    pub open spec fn wf(self) -> bool {
        let n = self.contexts.len();
        &&& 1 <= n <= 3
        &&& self.staged <= n
        &&& self.cursor <= self.staged
        &&& match self.phase {
            RunPhase::Draft => {
                &&& self.staged < n
                &&& self.cursor == 0
                &&& !self.abandoned
                &&& self.failure is None
                &&& self.signature is None
                &&& self.cleanup_failures == 0
                &&& self.journal == creation_log(self.staged)
                &&& forall|k: int|
                    0 <= k < n ==> #[trigger] self.contexts[k] == (if k < self.staged {
                        ContextStatus::Created
                    } else {
                        ContextStatus::Pending
                    })
            },
            RunPhase::ContextsStaged => {
                &&& self.staged == n
                &&& self.cursor == 0
                &&& !self.abandoned
                &&& self.failure is None
                &&& self.signature is None
                &&& self.cleanup_failures == 0
                &&& self.journal == creation_log(n)
                &&& forall|k: int| 0 <= k < n ==> #[trigger] self.contexts[k] == ContextStatus::Created
            },
            RunPhase::Cleanup => self.cursor < self.staged && self.settled_wf(),
            RunPhase::Done => self.cursor == self.staged && self.settled_wf(),
        }
    }

    /// The run's result: success only when the guarded operation was confirmed.
    pub open spec fn result(self) -> Option<Result<String, ConfidentialError>> {
        match self.signature {
            Some(s) => Some(Ok(s)),
            None => match self.failure {
                Some(e) => Some(Err(e)),
                None => None,
            },
        }
    }
}

/// A run starts well formed.
pub proof fn lemma_initial_wf(n: nat)
    requires
        1 <= n <= 3,
    ensures
        RunView::initial(n).wf(),
{
    assert(creation_log(0) =~= Seq::<JournalEntry>::empty());
}

/// Every step of a run keeps it well formed: whatever the ledger answers, the
/// run stays within the shapes that `wf` allows.
pub proof fn lemma_step_preserves_wf(v: RunView, outcome: LedgerOutcome)
    requires
        v.wf(),
        !(v.phase is Done),
    ensures
        v.step(outcome).wf(),
{
    let w = v.step(outcome);
    let n = v.contexts.len();
    let s = v.staged;
    match v.phase {
        RunPhase::Draft => {
            match outcome {
                LedgerOutcome::Confirmed { .. } => {
                    assert(w.journal =~= creation_log(s + 1));
                    if s + 1 == n {
                        assert forall|k: int| 0 <= k < n implies #[trigger] w.contexts[k]
                            == ContextStatus::Created by {
                            if k < s {
                                assert(v.contexts[k] == ContextStatus::Created);
                            }
                        }
                    }
                },
                LedgerOutcome::Failed { .. } => {
                    assert(w.journal.subrange(0, s as int) =~= creation_log(s));
                    assert forall|k: int| s < k < n implies #[trigger] w.contexts[k]
                        == ContextStatus::Pending by {
                        assert(v.contexts[k] == ContextStatus::Pending);
                    }
                    assert forall|k: int| w.cursor <= k < s implies #[trigger] w.contexts[k]
                        == ContextStatus::Created by {
                        assert(v.contexts[k] == ContextStatus::Created);
                    }
                },
            }
        },
        RunPhase::ContextsStaged => {
            assert(w.journal.subrange(0, s as int) =~= creation_log(s));
        },
        RunPhase::Cleanup => {
            let c = v.cursor;
            assert(w.journal.subrange(0, s as int) =~= v.journal.subrange(0, s as int));
            assert forall|k: int| 0 <= k < w.cursor implies (#[trigger] w.journal[s + 1
                + k]).action == LedgerAction::CloseContext { index: k as usize } by {
                if k < c {
                    assert(w.journal[s + 1 + k] == v.journal[s + 1 + k]);
                }
            }
            assert forall|k: int| 0 <= k < w.cursor implies #[trigger] w.contexts[k] == (if w.journal[s
                + 1 + k].confirmed {
                ContextStatus::Closed
            } else {
                ContextStatus::Abandoned
            }) by {
                if k < c {
                    assert(w.journal[s + 1 + k] == v.journal[s + 1 + k]);
                    assert(v.contexts[k] == (if v.journal[s + 1 + k].confirmed {
                        ContextStatus::Closed
                    } else {
                        ContextStatus::Abandoned
                    }));
                }
            }
            assert(w.journal[s as int] == v.journal[s as int]);
        },
        RunPhase::Done => {},
    }
}

/// In a successful run every context-creation confirmation comes before the
/// guarded operation's submission, and that submission comes before every close
/// submission.
pub proof fn lemma_successful_run_order(v: RunView)
    requires
        v.wf(),
        v.signature is Some,
    ensures
        forall|j: int|
            0 <= j < v.contexts.len() ==> #[trigger] v.journal[j] == (JournalEntry {
                action: LedgerAction::CreateContext { index: j as usize },
                confirmed: true,
            }),
        v.journal[v.contexts.len() as int] == (JournalEntry {
            action: LedgerAction::SubmitOperation,
            confirmed: true,
        }),
        forall|k: int|
            v.contexts.len() < k < v.journal.len() ==> ((#[trigger] v.journal[k]).action is CloseContext),
{
    let n = v.contexts.len();
    assert forall|j: int| 0 <= j < n implies #[trigger] v.journal[j] == JournalEntry {
        action: LedgerAction::CreateContext { index: j as usize },
        confirmed: true,
    } by {
        assert(v.journal.subrange(0, n as int)[j] == v.journal[j]);
    }
    assert forall|k: int| n < k < v.journal.len() implies (#[trigger] v.journal[k]).action is CloseContext by {
        assert(v.journal[n + 1 + (k - n - 1)].action == LedgerAction::CloseContext {
            index: (k - n - 1) as usize,
        });
    }
}

/// Cleanup is best effort: once the outcome is settled, closing a context never
/// changes the run's result, whether the ledger confirms the close or not. A run
/// only ever closes a context that reached `Created`.
pub proof fn lemma_cleanup_never_raises(v: RunView, outcome: LedgerOutcome)
    requires
        v.wf(),
        v.phase is Cleanup,
    ensures
        v.step(outcome).result() == v.result(),
        v.step(outcome).abandoned == v.abandoned,
        v.next_action() == (LedgerAction::CloseContext { index: v.cursor as usize }),
        v.cursor < v.staged,
        v.contexts[v.cursor as int] is Created || v.contexts[v.cursor as int] is Referenced,
{
}

/// A run makes a bounded number of submissions: at most one per context to
/// create it, one for the guarded operation, and one per context to close it.
pub proof fn lemma_bounded_submissions(v: RunView)
    requires
        v.wf(),
    ensures
        v.journal.len() <= 2 * v.contexts.len() + 1,
{
}

/// A run that is done has a result: the confirmed operation's signature, or the
/// failure that abandoned it.
pub proof fn lemma_done_has_result(v: RunView)
    requires
        v.wf(),
        v.phase is Done,
    ensures
        v.result() is Some,
        v.result() matches Some(Ok(_)) <==> !v.abandoned,
{
}

/// One choreography run: stages the proof contexts of a bundle on the ledger,
/// submits the guarded operation, and reclaims the contexts.
///
/// The run decides; its driver performs each `next_action` on the ledger and
/// hands the answer back to `record`.
pub struct Choreography {
    contexts: Vec<ContextStatus>,
    phase: RunPhase,
    staged: usize,
    cursor: usize,
    abandoned: bool,
    failure: Option<ConfidentialError>,
    signature: Option<String>,
    journal: Vec<JournalEntry>,
    cleanup_failures: usize,
}

impl View for Choreography {
    type V = RunView;

    closed spec fn view(&self) -> RunView {
        RunView {
            contexts: self.contexts@,
            phase: self.phase,
            staged: self.staged as nat,
            cursor: self.cursor as nat,
            abandoned: self.abandoned,
            failure: self.failure,
            signature: self.signature,
            journal: self.journal@,
            cleanup_failures: self.cleanup_failures as nat,
        }
    }
}

impl Choreography {
    /// A run that will stage `context_count` contexts, one per sub-proof.
    pub fn new(context_count: usize) -> (r: Choreography)
        requires
            1 <= context_count <= 3,
        ensures
            r@ == RunView::initial(context_count as nat),
            r@.wf(),
    {
        let mut contexts: Vec<ContextStatus> = Vec::new();
        let mut i: usize = 0;
        while i < context_count
            invariant
                i <= context_count,
                contexts@ == Seq::new(i as nat, |j: int| ContextStatus::Pending),
            decreases context_count - i,
        {
            contexts.push(ContextStatus::Pending);
            i = i + 1;
            assert(contexts@ =~= Seq::new(i as nat, |j: int| ContextStatus::Pending));
        }
        let r = Choreography {
            contexts,
            phase: RunPhase::Draft,
            staged: 0,
            cursor: 0,
            abandoned: false,
            failure: None,
            signature: None,
            journal: Vec::new(),
            cleanup_failures: 0,
        };
        proof {
            lemma_initial_wf(context_count as nat);
            assert(r@ =~= RunView::initial(context_count as nat));
        }
        r
    }

    /// The submission the run asks for next.
    pub fn next_action(&self) -> (r: LedgerAction)
        ensures
            r == self@.next_action(),
    {
        match self.phase {
            RunPhase::Draft => LedgerAction::CreateContext { index: self.staged },
            RunPhase::ContextsStaged => LedgerAction::SubmitOperation,
            RunPhase::Cleanup => LedgerAction::CloseContext { index: self.cursor },
            RunPhase::Done => LedgerAction::Finish,
        }
    }

    /// Records the ledger's answer to the submission `next_action` asked for.
    pub fn record(&mut self, outcome: LedgerOutcome)
        requires
            old(self)@.wf(),
            !(old(self)@.phase is Done),
        ensures
            final(self)@ == old(self)@.step(outcome),
            final(self)@.wf(),
    {
        proof {
            lemma_step_preserves_wf(self@, outcome);
        }
        let ghost target = self@.step(outcome);
        let n = self.contexts.len();
        match self.phase {
            RunPhase::Draft => {
                let i = self.staged;
                match outcome {
                    LedgerOutcome::Confirmed { .. } => {
                        self.contexts.set(i, ContextStatus::Created);
                        self.staged = i + 1;
                        self.journal.push(
                            JournalEntry { action: LedgerAction::CreateContext { index: i }, confirmed: true },
                        );
                        if i + 1 == n {
                            self.phase = RunPhase::ContextsStaged;
                        }
                    },
                    LedgerOutcome::Failed { message } => {
                        self.contexts.set(i, ContextStatus::Abandoned);
                        self.abandoned = true;
                        self.failure = Some(ConfidentialError::ContextCreationFailed { index: i, message });
                        self.journal.push(
                            JournalEntry { action: LedgerAction::CreateContext { index: i }, confirmed: false },
                        );
                        self.phase = if i == 0 { RunPhase::Done } else { RunPhase::Cleanup };
                    },
                }
            },
            RunPhase::ContextsStaged => match outcome {
                LedgerOutcome::Confirmed { signature } => {
                    let mut referenced: Vec<ContextStatus> = Vec::new();
                    let mut j: usize = 0;
                    while j < n
                        invariant
                            j <= n,
                            referenced@.len() == j,
                            forall|k: int| 0 <= k < j ==> referenced@[k] == ContextStatus::Referenced,
                        decreases n - j,
                    {
                        referenced.push(ContextStatus::Referenced);
                        j = j + 1;
                    }
                    self.contexts = referenced;
                    self.phase = RunPhase::Cleanup;
                    self.signature = Some(signature);
                    self.journal.push(
                        JournalEntry { action: LedgerAction::SubmitOperation, confirmed: true },
                    );
                    assert(self.contexts@ =~= target.contexts);
                },
                LedgerOutcome::Failed { message } => {
                    self.phase = RunPhase::Cleanup;
                    self.abandoned = true;
                    self.failure = Some(ConfidentialError::OperationSubmissionFailed { message });
                    self.journal.push(
                        JournalEntry { action: LedgerAction::SubmitOperation, confirmed: false },
                    );
                },
            },
            RunPhase::Cleanup => {
                let c = self.cursor;
                let confirmed = match outcome {
                    LedgerOutcome::Confirmed { .. } => true,
                    LedgerOutcome::Failed { .. } => false,
                };
                if confirmed {
                    self.contexts.set(c, ContextStatus::Closed);
                } else {
                    self.contexts.set(c, ContextStatus::Abandoned);
                    self.cleanup_failures = self.cleanup_failures + 1;
                }
                self.journal.push(
                    JournalEntry { action: LedgerAction::CloseContext { index: c }, confirmed },
                );
                self.cursor = c + 1;
                if c + 1 == self.staged {
                    self.phase = RunPhase::Done;
                }
                assert(self.contexts@ =~= target.contexts);
            },
            RunPhase::Done => {},
        }
        assert(self@ =~= target);
    }

    /// The phase the run is in.
    pub fn phase(&self) -> (r: RunPhase)
        ensures
            r == self@.phase,
    {
        self.phase
    }

    /// Whether an unrecoverable failure abandoned the run.
    pub fn is_abandoned(&self) -> (r: bool)
        ensures
            r == self@.abandoned,
    {
        self.abandoned
    }

    /// The status of the context at `index`.
    pub fn context_status(&self, index: usize) -> (r: ContextStatus)
        requires
            index < self@.contexts.len(),
        ensures
            r == self@.contexts[index as int],
    {
        self.contexts[index]
    }

    /// How many close submissions failed; reported for observability only.
    pub fn cleanup_failures(&self) -> (r: usize)
        ensures
            r == self@.cleanup_failures,
    {
        self.cleanup_failures
    }

    /// The submissions made so far, in order, with the ledger's verdicts.
    pub fn journal(&self) -> (r: Vec<JournalEntry>)
        ensures
            r@ == self@.journal,
    {
        let mut out: Vec<JournalEntry> = Vec::new();
        let mut i: usize = 0;
        while i < self.journal.len()
            invariant
                i <= self.journal@.len(),
                out@ == self.journal@.subrange(0, i as int),
            decreases self.journal@.len() - i,
        {
            out.push(self.journal[i]);
            i = i + 1;
            assert(out@ =~= self.journal@.subrange(0, i as int));
        }
        assert(out@ =~= self.journal@);
        out
    }

    /// The run's result: the guarded operation's signature when it was
    /// confirmed, else the failure that abandoned the run.
    pub fn into_result(self) -> (r: Result<String, ConfidentialError>)
        requires
            self@.wf(),
            self@.phase is Done,
        ensures
            self@.result() == Some(r),
    {
        proof {
            lemma_done_has_result(self@);
        }
        match self.signature {
            Some(s) => Ok(s),
            None => match self.failure {
                Some(e) => Err(e),
                None => Err(ConfidentialError::ProofGenerationFailure),
            },
        }
    }
}

} // verus!
