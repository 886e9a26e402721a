use vstd::prelude::*;
use crate::store::{
    handed_out, take_step, takes, takes_from_absent_are_empty, HandleStore, SupervisionState,
};

verus! {

/// What a close request did about the worker. None of these holds up the
/// close.
pub enum CloseOutcome<K> {
    /// No worker was held: nothing was signalled.
    NothingToStop,
    /// The worker was sent its termination signal.
    Stopped,
    /// Sending the termination signal failed.
    StopFailed(K),
}

/// The outcome once the termination signal returned `res`.
pub open spec fn termination_settled<K>(res: Result<(), K>) -> CloseOutcome<K> {
    match res {
        Ok(()) => CloseOutcome::Stopped,
        Err(e) => CloseOutcome::StopFailed(e),
    }
}

/// Turns the result of sending the termination signal into the outcome to
/// report.
pub fn settle_termination<K>(res: Result<(), K>) -> (r: CloseOutcome<K>)
    ensures
        r == termination_settled(res),
{
    match res {
        Ok(()) => CloseOutcome::Stopped,
        Err(e) => CloseOutcome::StopFailed(e),
    }
}

/// Handles a close request: takes the handle out of the store and, if there
/// was one, calls `kill` on it, once. The store is `Absent` afterwards, so a
/// later request finds nothing to stop.
pub fn on_close_requested<H, K, F: FnOnce(H) -> Result<(), K>>(
    store: &mut HandleStore<H>,
    kill: F,
) -> (r: CloseOutcome<K>)
    requires
        forall|h: H| kill.requires((h,)),
    ensures
        final(store)@ == take_step(old(store)@).0,
        match old(store)@ {
            SupervisionState::Absent => r == CloseOutcome::<K>::NothingToStop,
            SupervisionState::Running(h) => exists|res: Result<(), K>|
                kill.ensures((h,), res) && r == termination_settled(res),
        },
{
    match store.take() {
        None => CloseOutcome::NothingToStop,
        Some(h) => {
            let res = kill(h);
            settle_termination(res)
        },
    }
}

/// Two close requests in a row hand at most one handle to be killed, and
/// the second hands none.
pub proof fn second_close_stops_nothing<H>(s: SupervisionState<H>)
    ensures
        takes(s, 2)[1] is None,
        handed_out(takes(s, 2)) <= 1,
{
    let t = takes(s, 2);
    let rest = takes(SupervisionState::<H>::Absent, 1);
    takes_from_absent_are_empty::<H>(1);
    assert(t == seq![s.handle()] + rest);
    assert(t.drop_first() =~= rest);
    assert(t[1] == rest[0]);
}

} // verus!
