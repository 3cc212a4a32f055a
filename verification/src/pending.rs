//! The pending-block simulation: a preview of the block that a list of
//! not-yet-finalized transactions would produce.
//!
//! The simulation works on the chain's execution context, which lives
//! outside this library. The protocol is therefore a state machine: it names
//! the next action, the caller performs it on the execution context and
//! reports back, and the machine moves on. The context is initialized from
//! the header, every transaction is applied in order, the context is
//! finalized against the block number that follows the chain's current
//! height, and the resulting block and its transaction statuses are read
//! back. A transaction that fails to apply is left out of the block and the
//! simulation goes on; the machine records which were applied.
//!
//! The protocol changes the execution context. Between the first action and
//! the last the caller must keep every other writer away from it.

use vstd::prelude::*;

verus! {

/// Where a simulation stands.
#[derive(Clone, Copy, Debug, PartialEq, Eq, Structural)]
pub enum Phase {
    /// The execution context is to be initialized from the header.
    Initializing,
    /// Transactions are to be applied.
    Applying,
    /// The execution context is to be finalized.
    Finalizing,
    /// The block and its transaction statuses are to be read back.
    Reading,
    /// The simulation is over.
    Done,
}

/// What the caller is to do next.
#[derive(Clone, Copy, Debug, PartialEq, Eq, Structural)]
pub enum Action {
    /// Initialize the execution context from the header.
    InitializeBlock,
    /// Apply the transaction at this position of the list.
    ApplyExtrinsic(usize),
    /// Finalize the execution context against this block number.
    Finalize(u64),
    /// Read back the current block and its transaction statuses.
    ReadBack,
    /// Return what was read: the simulation is over.
    Return,
}

/// What the caller reports back.
#[derive(Clone, Copy, Debug, PartialEq, Eq, Structural)]
pub enum Event {
    /// The execution context was initialized.
    Initialized,
    /// The transaction was applied (`true`) or failed to apply (`false`).
    Applied(bool),
    /// The execution context was finalized.
    Finalized,
    /// The block and its transaction statuses were read back.
    Snapshot,
}

/// The state of a simulation.
pub struct PendingState {
    /// The number of transactions to apply.
    pub count: nat,
    /// The chain's current height.
    pub height: nat,
    pub phase: Phase,
    /// The number of transactions that were applied or failed to apply.
    pub cursor: nat,
    /// The positions of the transactions that were applied, in order.
    pub included: Seq<nat>,
}

impl PendingState {
    /// The state in which a simulation starts.
    pub open spec fn initial(count: nat, height: nat) -> PendingState {
        PendingState { count, height, phase: Phase::Initializing, cursor: 0, included: Seq::empty() }
    }

    /// The action that the simulation is waiting for.
    pub open spec fn awaited(self) -> Action {
        match self.phase {
            Phase::Initializing => Action::InitializeBlock,
            Phase::Applying => Action::ApplyExtrinsic(self.cursor as usize),
            Phase::Finalizing => Action::Finalize((self.height + 1) as u64),
            Phase::Reading => Action::ReadBack,
            Phase::Done => Action::Return,
        }
    }

    /// The phase that follows once `cursor` transactions have been handled.
    pub open spec fn phase_at(self, cursor: nat) -> Phase {
        if cursor < self.count {
            Phase::Applying
        } else {
            Phase::Finalizing
        }
    }

    /// The state after `event`. An event that does not answer the awaited
    /// action changes nothing.
    pub open spec fn next(self, event: Event) -> PendingState {
        match (self.phase, event) {
            (Phase::Initializing, Event::Initialized) => PendingState {
                phase: self.phase_at(0),
                ..self
            },
            (Phase::Applying, Event::Applied(applied)) => PendingState {
                phase: self.phase_at(self.cursor + 1),
                cursor: self.cursor + 1,
                included: if applied {
                    self.included.push(self.cursor)
                } else {
                    self.included
                },
                ..self
            },
            (Phase::Finalizing, Event::Finalized) => PendingState { phase: Phase::Reading, ..self },
            (Phase::Reading, Event::Snapshot) => PendingState { phase: Phase::Done, ..self },
            _ => self,
        }
    }

    /// The state after each of `events` in turn.
    pub open spec fn run(self, events: Seq<Event>) -> PendingState
        decreases events.len(),
    {
        if events.len() == 0 {
            self
        } else {
            self.run(events.drop_last()).next(events.last())
        }
    }

    /// What holds of every state that a simulation reaches.
    pub open spec fn consistent(self) -> bool {
        &&& self.cursor <= self.count
        &&& self.phase == Phase::Initializing ==> self.cursor == 0
        &&& self.phase == Phase::Applying ==> self.cursor < self.count
        &&& self.phase != Phase::Initializing && self.phase != Phase::Applying ==> self.cursor
            == self.count
        &&& self.included.len() <= self.cursor
        &&& forall|j: int| 0 <= j < self.included.len() ==> (#[trigger] self.included[j]) < self.cursor
        &&& forall|j: int, k: int|
            0 <= j < k < self.included.len() ==> self.included[j] < self.included[k]
    }
}

/// A pending-block simulation over a list of transactions.
#[derive(Debug)]
pub struct PendingBlock {
    count: usize,
    height: u64,
    phase: Phase,
    cursor: usize,
    included: Vec<usize>,
}

impl View for PendingBlock {
    type V = PendingState;

    closed spec fn view(&self) -> PendingState {
        PendingState {
            count: self.count as nat,
            height: self.height as nat,
            phase: self.phase,
            cursor: self.cursor as nat,
            included: self.included@.map_values(|i: usize| i as nat),
        }
    }
}

impl PendingBlock {
    #[verifier::type_invariant]
    spec fn valid(self) -> bool {
        self@.consistent() && self.height < u64::MAX
    }

    /// A simulation of `count` transactions on a chain whose current height
    /// is `height`.
    pub fn new(count: usize, height: u64) -> (r: PendingBlock)
        requires
            height < u64::MAX,
        ensures
            r@ == PendingState::initial(count as nat, height as nat),
    {
        let r = PendingBlock {
            count,
            height,
            phase: Phase::Initializing,
            cursor: 0,
            included: Vec::new(),
        };
        assert(r@.included =~= Seq::empty());
        r
    }

    /// The action that the simulation is waiting for.
    pub fn action(&self) -> (r: Action)
        ensures
            r == self@.awaited(),
            self@.consistent(),
            r matches Action::ApplyExtrinsic(i) ==> i < self@.count,
            r matches Action::Finalize(number) ==> number == self@.height + 1,
    {
        proof {
            use_type_invariant(self);
        }
        match self.phase {
            Phase::Initializing => Action::InitializeBlock,
            Phase::Applying => Action::ApplyExtrinsic(self.cursor),
            Phase::Finalizing => Action::Finalize(self.height + 1),
            Phase::Reading => Action::ReadBack,
            Phase::Done => Action::Return,
        }
    }

    /// Takes in what the caller reports and gives the state that follows
    /// with the next action. The outcome of an application decides only
    /// whether the transaction counts as included: the simulation goes on
    /// either way.
    pub fn step(self, event: Event) -> (r: (PendingBlock, Action))
        ensures
            r.0@ == self@.next(event),
            r.1 == r.0@.awaited(),
    {
        proof {
            use_type_invariant(&self);
        }
        let ghost before = self@;
        let PendingBlock { count, height, phase, cursor, included } = self;
        let mut included = included;
        let after = match (phase, event) {
            (Phase::Initializing, Event::Initialized) => PendingBlock {
                count,
                height,
                phase: if count > 0 {
                    Phase::Applying
                } else {
                    Phase::Finalizing
                },
                cursor,
                included,
            },
            (Phase::Applying, Event::Applied(applied)) => {
                if applied {
                    included.push(cursor);
                    assert(included@.map_values(|i: usize| i as nat) =~= before.included.push(
                        cursor as nat,
                    ));
                }
                PendingBlock {
                    count,
                    height,
                    phase: if cursor + 1 < count {
                        Phase::Applying
                    } else {
                        Phase::Finalizing
                    },
                    cursor: cursor + 1,
                    included,
                }
            },
            (Phase::Finalizing, Event::Finalized) => PendingBlock {
                count,
                height,
                phase: Phase::Reading,
                cursor,
                included,
            },
            (Phase::Reading, Event::Snapshot) => PendingBlock {
                count,
                height,
                phase: Phase::Done,
                cursor,
                included,
            },
            _ => PendingBlock { count, height, phase, cursor, included },
        };
        let action = after.action();
        (after, action)
    }

    /// Whether the simulation is over.
    pub fn is_done(&self) -> (r: bool)
        ensures
            r == (self@.phase == Phase::Done),
    {
        self.phase == Phase::Done
    }

    /// The positions of the transactions that were applied so far, in order.
    pub fn included(&self) -> (r: &Vec<usize>)
        ensures
            r@.map_values(|i: usize| i as nat) == self@.included,
    {
        &self.included
    }

    /// The number of transactions that failed to apply so far.
    pub fn omitted(&self) -> (r: usize)
        ensures
            r == self@.cursor - self@.included.len(),
    {
        proof {
            use_type_invariant(self);
        }
        self.cursor - self.included.len()
    }
}

/// The reports of a run in which transaction `i` applies exactly if
/// `outcomes[i]`.
pub open spec fn applications(outcomes: Seq<bool>) -> Seq<Event> {
    outcomes.map_values(|applied: bool| Event::Applied(applied))
}

/// The positions `i` with `outcomes[i]`, in increasing order.
pub open spec fn applied_positions(outcomes: Seq<bool>) -> Seq<nat>
    decreases outcomes.len(),
{
    if outcomes.len() == 0 {
        Seq::empty()
    } else {
        let front = applied_positions(outcomes.drop_last());
        if outcomes.last() {
            front.push((outcomes.len() - 1) as nat)
        } else {
            front
        }
    }
}

/// Every state that a simulation reaches is consistent: the transactions
/// are handled in order, none twice, and the included positions increase.
pub proof fn lemma_run_consistent(state: PendingState, events: Seq<Event>)
    requires
        state.consistent(),
    ensures
        state.run(events).consistent(),
        state.run(events).count == state.count,
        state.run(events).height == state.height,
    decreases events.len(),
{
    if events.len() > 0 {
        lemma_run_consistent(state, events.drop_last());
    }
}

/// The state after initialization and the first `n` applications.
proof fn lemma_applied_prefix(count: nat, height: nat, outcomes: Seq<bool>, n: int)
    requires
        outcomes.len() == count,
        0 <= n <= count,
    ensures
        ({
            let state = PendingState::initial(count, height).run(
                seq![Event::Initialized] + applications(outcomes.take(n)),
            );
            &&& state.count == count
            &&& state.height == height
            &&& state.cursor == n
            &&& state.phase == state.phase_at(n as nat)
            &&& state.included == applied_positions(outcomes.take(n))
        }),
    decreases n,
{
    let start = PendingState::initial(count, height);
    let events = seq![Event::Initialized] + applications(outcomes.take(n));
    if n == 0 {
        assert(events.drop_last() =~= Seq::<Event>::empty());
        assert(start.run(events.drop_last()) == start);
    } else {
        lemma_applied_prefix(count, height, outcomes, n - 1);
        assert(events.drop_last() =~= seq![Event::Initialized] + applications(
            outcomes.take(n - 1),
        ));
        assert(events.last() == Event::Applied(outcomes[n - 1]));
        assert(outcomes.take(n).drop_last() =~= outcomes.take(n - 1));
        assert(outcomes.take(n).last() == outcomes[n - 1]);
    }
}

/// Application is best-effort. Whatever the outcomes, once the context is
/// initialized and each transaction has had its turn, the simulation asks to
/// finalize against the block number after the current height, and counts as
/// included exactly the transactions that applied, in their order. The two
/// reports that follow end it.
pub proof fn lemma_best_effort_application(count: nat, height: nat, outcomes: Seq<bool>)
    requires
        outcomes.len() == count,
        height < u64::MAX,
    ensures
        ({
            let applied = PendingState::initial(count, height).run(
                seq![Event::Initialized] + applications(outcomes),
            );
            &&& applied.awaited() == Action::Finalize((height + 1) as u64)
            &&& applied.included == applied_positions(outcomes)
            &&& applied.next(Event::Finalized).awaited() == Action::ReadBack
            &&& applied.next(Event::Finalized).next(Event::Snapshot).awaited() == Action::Return
            &&& applied.next(Event::Finalized).next(Event::Snapshot).included == applied_positions(
                outcomes,
            )
        }),
{
    lemma_applied_prefix(count, height, outcomes, count as int);
    assert(outcomes.take(count as int) =~= outcomes);
}

} // verus!
