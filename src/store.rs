use vstd::prelude::*;

verus! {

/// Whether a worker process is currently held.
pub enum SupervisionState<H> {
    /// A worker was started and has not been stopped yet.
    Running(H),
    /// No worker was started, or it has already been handed out to be stopped.
    Absent,
}

impl<H> SupervisionState<H> {
    /// The handle this state holds, if any.
    pub open spec fn handle(self) -> Option<H> {
        match self {
            SupervisionState::Running(h) => Some(h),
            SupervisionState::Absent => None,
        }
    }

    /// Whether a worker is held.
    pub fn is_running(&self) -> (r: bool)
        ensures
            r == (*self is Running),
    {
        match self {
            SupervisionState::Running(_) => true,
            SupervisionState::Absent => false,
        }
    }
}

/// One `take`: the state left behind and what the caller receives.
pub open spec fn take_step<H>(s: SupervisionState<H>) -> (SupervisionState<H>, Option<H>) {
    (SupervisionState::Absent, s.handle())
}

/// What `n` successive `take` calls receive, starting from state `s`.
pub open spec fn takes<H>(s: SupervisionState<H>, n: nat) -> Seq<Option<H>>
    decreases n,
{
    if n == 0 {
        Seq::empty()
    } else {
        seq![take_step(s).1] + takes(take_step(s).0, (n - 1) as nat)
    }
}

/// How many of the results carry a handle.
pub open spec fn handed_out<H>(results: Seq<Option<H>>) -> nat
    decreases results.len(),
{
    if results.len() == 0 {
        0
    } else {
        (if results[0] is Some { 1nat } else { 0nat }) + handed_out(results.drop_first())
    }
}

/// The slot that owns the worker handle: zero or one handle, handed out to
/// the first caller of `take` and to no later one.
///
/// `install` is the only way to make a store, so the initial state is set
/// exactly once. Shared between threads, the store goes behind a mutex;
/// `take` needs `&mut self`, so each call runs alone.
pub struct HandleStore<H> {
    state: SupervisionState<H>,
}

impl<H> View for HandleStore<H> {
    type V = SupervisionState<H>;

    closed spec fn view(&self) -> SupervisionState<H> {
        self.state
    }
}

impl<H> HandleStore<H> {
    /// Makes the store with its initial state.
    pub fn install(state: SupervisionState<H>) -> (r: Self)
        ensures
            r@ == state,
    {
        HandleStore { state }
    }

    /// Removes and returns the handle, if any, leaving `Absent` behind.
    pub fn take(&mut self) -> (r: Option<H>)
        ensures
            (final(self)@, r) == take_step(old(self)@),
    {
        let mut state = SupervisionState::Absent;
        std::mem::swap(&mut self.state, &mut state);
        match state {
            SupervisionState::Running(h) => Some(h),
            SupervisionState::Absent => None,
        }
    }

    /// Whether a worker handle is held.
    pub fn is_running(&self) -> (r: bool)
        ensures
            r == (self@ is Running),
    {
        self.state.is_running()
    }
}

/// Take-once: however many calls of `take` follow the installation of a
/// running worker, the first receives its handle and every other receives
/// nothing.
pub proof fn take_hands_out_once<H>(h: H, n: nat)
    requires
        n >= 1,
    ensures
        takes(SupervisionState::Running(h), n)[0] == Some(h),
        forall|i: int| 1 <= i < n ==> #[trigger] takes(SupervisionState::Running(h), n)[i] is None,
        handed_out(takes(SupervisionState::Running(h), n)) == 1,
{
    let rest = takes(SupervisionState::<H>::Absent, (n - 1) as nat);
    takes_from_absent_are_empty::<H>((n - 1) as nat);
    assert(takes(SupervisionState::Running(h), n) == seq![Some(h)] + rest);
    assert((seq![Some(h)] + rest).drop_first() =~= rest);
}

/// Once the store is `Absent`, every later `take` receives nothing.
pub proof fn takes_from_absent_are_empty<H>(n: nat)
    ensures
        takes(SupervisionState::<H>::Absent, n).len() == n,
        forall|i: int| 0 <= i < n ==> #[trigger] takes(SupervisionState::<H>::Absent, n)[i] is None,
        handed_out(takes(SupervisionState::<H>::Absent, n)) == 0,
    decreases n,
{
    if n > 0 {
        let rest = takes(SupervisionState::<H>::Absent, (n - 1) as nat);
        takes_from_absent_are_empty::<H>((n - 1) as nat);
        assert((seq![None] + rest).drop_first() =~= rest);
    }
}

} // verus!
