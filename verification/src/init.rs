//! Reference counting of the global subsystem.
//!
//! The native engine has one process-wide initializer and one deinitializer.
//! [`InitState`] counts the guards that are alive and says, for each request,
//! whether the initializer or the deinitializer has to run. The caller keeps
//! one `InitState` behind a lock, runs what it is told to run, and reports the
//! initializer's status back.

use vstd::prelude::*;
use crate::error::Error;

verus! {

/// What an [`InitState`] stands for: the number of guards alive, and whether
/// the native subsystem is initialized.
pub struct Subsystem {
    pub live: nat,
    pub initialized: bool,
}

/// One request made of the subsystem.
pub enum GuardOp {
    /// A guard is asked for. `status` is what the native initializer returned,
    /// if it was run.
    New { status: Option<i32> },
    /// A guard is duplicated.
    Clone,
    /// A guard is given back.
    Drop,
}

impl Subsystem {
    /// The subsystem before any guard was handed out.
    pub open spec fn start() -> Subsystem {
        Subsystem { live: 0, initialized: false }
    }

    /// The invariant of the subsystem: it is initialized exactly while guards
    /// are alive.
    pub open spec fn consistent(self) -> bool {
        self.initialized <==> self.live > 0
    }

    /// Whether the native initializer has to run before a guard can be
    /// handed out: it has to while no guard is alive, and only then.
    pub open spec fn needs_initialize(self) -> bool {
        self.live == 0
    }

    /// Whether the native deinitializer has to run once a guard was given
    /// back: it has to if that guard was the last one, and only then.
    pub open spec fn needs_deinitialize(self) -> bool {
        self.live == 1
    }

    /// Whether `op` hands out a guard in this state.
    pub open spec fn grants(self, op: GuardOp) -> bool {
        match op {
            GuardOp::New { status } => self.live > 0 || (status matches Some(code) && code >= 0),
            GuardOp::Clone => self.live > 0,
            GuardOp::Drop => false,
        }
    }

    /// Whether `op` takes a guard back in this state.
    pub open spec fn takes_back(self, op: GuardOp) -> bool {
        op is Drop && self.live > 0
    }

    /// The state after `op`. A request that cannot be made in this state (a
    /// guard duplicated or given back while none is alive) changes nothing.
    pub open spec fn step(self, op: GuardOp) -> Subsystem {
        if self.grants(op) {
            Subsystem { live: self.live + 1, initialized: true }
        } else if self.takes_back(op) {
            Subsystem { live: (self.live - 1) as nat, initialized: self.live > 1 }
        } else {
            self
        }
    }

    /// The state after all of `ops`, in order.
    pub open spec fn run(self, ops: Seq<GuardOp>) -> Subsystem
        decreases ops.len(),
    {
        if ops.len() == 0 {
            self
        } else {
            self.run(ops.drop_last()).step(ops.last())
        }
    }

    /// The number of guards that `ops` hand out, starting from this state.
    pub open spec fn granted(self, ops: Seq<GuardOp>) -> nat
        decreases ops.len(),
    {
        if ops.len() == 0 {
            0
        } else {
            let before = self.run(ops.drop_last());
            self.granted(ops.drop_last()) + if before.grants(ops.last()) {
                1nat
            } else {
                0nat
            }
        }
    }

    /// The number of guards that `ops` take back, starting from this state.
    pub open spec fn returned(self, ops: Seq<GuardOp>) -> nat
        decreases ops.len(),
    {
        if ops.len() == 0 {
            0
        } else {
            let before = self.run(ops.drop_last());
            self.returned(ops.drop_last()) + if before.takes_back(ops.last()) {
                1nat
            } else {
                0nat
            }
        }
    }
}

/// Every request keeps the subsystem consistent.
pub proof fn lemma_step_consistent(s: Subsystem, op: GuardOp)
    requires
        s.consistent(),
    ensures
        s.step(op).consistent(),
{
}

/// While guards are alive, a guard that is asked for or duplicated is always
/// handed out, whatever the native initializer would return: it is not run,
/// nor is the deinitializer, and one guard more is alive afterwards.
pub proof fn lemma_guard_while_alive(s: Subsystem, status: Option<i32>)
    requires
        s.consistent(),
        s.live > 0,
    ensures
        !s.needs_initialize(),
        s.grants(GuardOp::New { status }),
        s.step(GuardOp::New { status }) == (Subsystem { live: s.live + 1, initialized: true }),
        s.grants(GuardOp::Clone),
        s.step(GuardOp::Clone) == (Subsystem { live: s.live + 1, initialized: true }),
        !s.takes_back(GuardOp::New { status }),
        !s.takes_back(GuardOp::Clone),
        s.step(GuardOp::New { status }).initialized == s.initialized,
        s.step(GuardOp::Clone).initialized == s.initialized,
{
}

/// After any sequence of requests, and so at every point in between, the
/// subsystem is initialized if and only if at least one guard is alive.
pub proof fn lemma_initialized_iff_live(ops: Seq<GuardOp>)
    ensures
        Subsystem::start().run(ops).consistent(),
        forall|n: int|
            0 <= n <= ops.len() ==> (#[trigger] Subsystem::start().run(ops.take(n))).consistent(),
    decreases ops.len(),
{
    let start = Subsystem::start();
    if ops.len() > 0 {
        lemma_initialized_iff_live(ops.drop_last());
        lemma_step_consistent(start.run(ops.drop_last()), ops.last());
        assert forall|n: int| 0 <= n <= ops.len() implies (#[trigger] start.run(
            ops.take(n),
        )).consistent() by {
            if n == ops.len() {
                assert(ops.take(n) =~= ops);
            } else {
                assert(ops.take(n) =~= ops.drop_last().take(n));
            }
        }
    } else {
        assert forall|n: int| 0 <= n <= ops.len() implies (#[trigger] start.run(
            ops.take(n),
        )).consistent() by {
            assert(ops.take(n) =~= ops);
        }
    }
}

/// The count is conserved: the guards alive are those handed out less those
/// taken back.
pub proof fn lemma_count_conserved(ops: Seq<GuardOp>)
    ensures
        Subsystem::start().run(ops).live == Subsystem::start().granted(ops)
            - Subsystem::start().returned(ops),
    decreases ops.len(),
{
    if ops.len() > 0 {
        lemma_count_conserved(ops.drop_last());
    }
}

/// A handle representing "the global subsystem is initialized".
///
/// A guard is handed out by [`InitGuard::new`] and [`InitGuard::share`], and
/// given back with [`InitGuard::release`].
pub struct InitGuard(());

/// The reference count of the global subsystem.
pub struct InitState {
    count: usize,
    initialized: bool,
}

impl View for InitState {
    type V = Subsystem;

    closed spec fn view(&self) -> Subsystem {
        Subsystem { live: self.count as nat, initialized: self.initialized }
    }
}

impl InitState {
    #[verifier::type_invariant]
    spec fn consistent(self) -> bool {
        self.initialized <==> self.count > 0
    }

    /// A state without guards: the subsystem is not initialized.
    pub fn new() -> (state: Self)
        ensures
            state@ == Subsystem::start(),
    {
        InitState { count: 0, initialized: false }
    }

    /// The number of guards alive.
    pub fn live(&self) -> (n: usize)
        ensures
            n == self@.live,
    {
        self.count
    }

    /// Whether the subsystem is initialized, which is the case exactly while
    /// guards are alive.
    pub fn is_initialized(&self) -> (b: bool)
        ensures
            b == self@.initialized,
            b == (self@.live > 0),
            self@.consistent(),
    {
        proof {
            use_type_invariant(self);
        }
        self.initialized
    }

    /// Whether the native initializer has to run before the next guard can be
    /// handed out.
    pub fn needs_initialize(&self) -> (b: bool)
        ensures
            b == self@.needs_initialize(),
            b == (self@.live == 0),
            b == !self@.initialized,
    {
        proof {
            use_type_invariant(self);
        }
        self.count == 0
    }
}

impl InitGuard {
    /// Hands out a guard.
    ///
    /// While guards are alive this always succeeds and `status` is not looked
    /// at. Otherwise `status` is what the native initializer returned: a
    /// negative status, or none at all, fails with [`Error::Init`] and leaves
    /// the subsystem uninitialized.
    pub fn new(state: &mut InitState, status: Option<i32>) -> (r: Result<InitGuard, Error>)
        requires
            old(state)@.live < usize::MAX,
        ensures
            final(state)@ == old(state)@.step(GuardOp::New { status }),
            r is Ok <==> old(state)@.grants(GuardOp::New { status }),
            r is Err ==> r->Err_0 is Init,
    {
        proof {
            use_type_invariant(&*state);
        }
        if state.count != 0 {
            state.count = state.count + 1;
            return Ok(InitGuard(()));
        }
        match status {
            Some(code) => {
                if code < 0 {
                    return Err(Error::Init);
                }
            },
            None => {
                return Err(Error::Init);
            },
        }
        *state = InitState { count: 1, initialized: true };
        Ok(InitGuard(()))
    }

    /// Duplicates a guard. This always succeeds.
    pub fn share(&self, state: &mut InitState) -> (guard: InitGuard)
        requires
            0 < old(state)@.live < usize::MAX,
        ensures
            final(state)@ == old(state)@.step(GuardOp::Clone),
            final(state)@.live == old(state)@.live + 1,
    {
        proof {
            use_type_invariant(&*state);
        }
        state.count = state.count + 1;
        InitGuard(())
    }

    /// Gives a guard back. Returns whether this was the last guard, in which
    /// case the native deinitializer has to run.
    pub fn release(self, state: &mut InitState) -> (deinitialize: bool)
        requires
            old(state)@.live > 0,
        ensures
            final(state)@ == old(state)@.step(GuardOp::Drop),
            final(state)@.live == old(state)@.live - 1,
            deinitialize == old(state)@.needs_deinitialize(),
            deinitialize == (final(state)@.live == 0),
            deinitialize == !final(state)@.initialized,
    {
        proof {
            use_type_invariant(&*state);
        }
        let remaining = state.count - 1;
        *state = InitState { count: remaining, initialized: remaining > 0 };
        remaining == 0
    }
}

} // verus!
