//! The composition root's decisions: racing the interrupt against the
//! pipeline, and reporting the outcome.
//!
//! The event loop races two completions — the interrupt bridge and the
//! spawn-or-discover-then-wait pipeline — and whichever resolves first
//! decides the report. The loser is abandoned; abandoning the pipeline
//! still releases the supervised process by its ownership rule, which the
//! exit notification's own release path guarantees. Only the pipeline can
//! end supervision with an error: the interrupt branch has no error
//! channel at all, so an error report always names a pipeline failure.

use vstd::prelude::*;

use crate::windows_helper::ExitStatus;

verus! {

/// How the supervised program ended, as reported: with its recorded exit
/// code, or — should the status ever carry none — without one.
#[derive(Clone, Copy, Debug, PartialEq, Eq, Structural)]
pub enum ExitOutcome {
    /// The program exited with this code.
    Code(u32),
    /// The program ended without an observable code.
    Unknown,
}

/// Reads an exit status's optional code into the reported outcome.
pub fn exit_outcome_of(code: Option<u32>) -> (r: ExitOutcome)
    ensures
        code matches Some(c) ==> r == ExitOutcome::Code(c),
        code is None ==> r == ExitOutcome::Unknown,
{
    match code {
        Some(c) => ExitOutcome::Code(c),
        None => ExitOutcome::Unknown,
    }
}

/// How the race between the interrupt and the pipeline came out.
#[derive(Clone, Copy, Debug, PartialEq, Eq)]
pub enum RaceResult<E> {
    /// The interrupt resolved first. The interrupt branch cannot fail, so
    /// it has no failure variant to race.
    InterruptFirst,
    /// The pipeline resolved first: the program exited with this status.
    PipelineFinished(ExitStatus),
    /// The pipeline failed first with this error.
    PipelineFailed(E),
}

/// What supervision reports when it ends cleanly.
#[derive(Clone, Copy, Debug, PartialEq, Eq, Structural)]
pub enum SupervisionOutcome {
    /// An external interrupt ended supervision; the supervisor is
    /// stopping.
    Stopping,
    /// The supervised program exited on its own.
    Exited(ExitOutcome),
}

/// Turns the race's outcome into the supervision report: an interrupt win
/// is the clean stopping report, a finished pipeline reports the program's
/// exit, and a pipeline failure is the one way supervision ends with an
/// error — the interrupt branch can contribute none.
pub fn resolve_supervision<E>(race: RaceResult<E>) -> (r: Result<SupervisionOutcome, E>)
    ensures
        race is InterruptFirst ==> r == Result::<SupervisionOutcome, E>::Ok(
            SupervisionOutcome::Stopping,
        ),
        race matches RaceResult::PipelineFinished(status) ==> r == Result::<
            SupervisionOutcome,
            E,
        >::Ok(SupervisionOutcome::Exited(ExitOutcome::Code(status.raw_code))),
        race matches RaceResult::PipelineFailed(e) ==> (r matches Err(out) && out == e),
        r is Err ==> race is PipelineFailed,
{
    match race {
        RaceResult::InterruptFirst => Ok(SupervisionOutcome::Stopping),
        RaceResult::PipelineFinished(status) => {
            let outcome = exit_outcome_of(status.code());
            Ok(SupervisionOutcome::Exited(outcome))
        },
        RaceResult::PipelineFailed(e) => Err(e),
    }
}

} // verus!
