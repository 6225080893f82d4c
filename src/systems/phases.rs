use vstd::prelude::*;

use crate::game_state::GameState;

verus! {

/// How long an execution phase lasts, in milliseconds.
pub const EXECUTION_LENGTH: u64 = 10_000;

/// Phase the planning phase hands over to: execution, in the first sprint only.
pub fn planning_transition(sprint: u32) -> (r: Option<GameState>)
    ensures
        r == (if sprint == 1 {
            Some(GameState::Running)
        } else {
            None::<GameState>
        }),
{
    if sprint == 1 {
        Some(GameState::Running)
    } else {
        None
    }
}

/// Progress through the steps of an execution phase.
pub struct ExecutionPhase {
    pub current_step: usize,
    pub steps: Vec<String>,
    /// Time spent in the phase, in milliseconds.
    pub elapsed: u64,
}

impl ExecutionPhase {
    /// A phase at its first step, with no time spent.
    pub fn new() -> (r: Self)
        ensures
            r.current_step == 0,
            r.steps@.len() == 5,
            r.elapsed == 0,
    {
        ExecutionPhase {
            current_step: 0,
            steps: vec![
                "Apply Changes".to_owned(),
                "Run Simulation".to_owned(),
                "Process Defects".to_owned(),
                "Calculate Revenue".to_owned(),
                "Update Tech Debt".to_owned(),
            ],
            elapsed: 0,
        }
    }

    /// Adds `delta` milliseconds to the phase; once it has lasted
    /// `EXECUTION_LENGTH`, its clock restarts and planning comes next.
    pub fn advance(&mut self, delta: u32) -> (r: Option<GameState>)
        ensures
            final(self).current_step == old(self).current_step,
            final(self).steps == old(self).steps,
            ({
                let t = if old(self).elapsed + delta > u64::MAX {
                    u64::MAX as int
                } else {
                    old(self).elapsed + delta
                };
                if t >= EXECUTION_LENGTH {
                    &&& final(self).elapsed == 0
                    &&& r == Some(GameState::Planning)
                } else {
                    &&& final(self).elapsed == t
                    &&& r == None::<GameState>
                }
            }),
    {
        let t = self.elapsed.saturating_add(delta as u64);
        if t >= EXECUTION_LENGTH {
            self.elapsed = 0;
            Some(GameState::Planning)
        } else {
            self.elapsed = t;
            None
        }
    }
}

} // verus!
