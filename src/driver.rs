use vstd::prelude::*;

use crate::input::LoadError;

verus! {

/// Step counts that pace the search for one state.
#[derive(Clone, Copy, Debug, PartialEq, Eq, Structural)]
pub struct Schedule {
    /// Steps between snap points, where the state is symmetrised,
    /// renormalised and tested for convergence.
    pub snap_update: u64,
    /// Steps of evolution between two iterations of the driver.
    pub screen_update: u64,
    /// Last step at which evolution may still run.
    pub max_steps: u64,
}

impl Schedule {
    pub open spec fn wf(self) -> bool {
        self.snap_update > 0 && self.screen_update > 0
    }
}

/// Where the search for one state stands.
#[derive(Clone, Copy, Debug, PartialEq, Eq, Structural)]
pub enum Status {
    Searching,
    /// The energy changed by less than the tolerance between two snap points.
    Converged,
    /// The step count passed `max_steps` first.
    Exhausted,
}

/// What one iteration of the driver does besides computing the observables
/// and emitting a measurement.
#[derive(Clone, Copy, Debug, PartialEq, Eq, Structural)]
pub struct Plan {
    /// Renormalise and project out the stored lower states (excited states only).
    pub orthonormalise: bool,
    /// This step is a snap point: symmetrise, renormalise, test convergence.
    pub snap: bool,
    /// Run `screen_update` steps of evolution after the measurement.
    pub evolve: bool,
}

/// The search for state `wnum`: its step counter and status.
#[derive(Clone, Copy, Debug, PartialEq, Eq, Structural)]
pub struct Search {
    pub wnum: u8,
    pub step: u64,
    pub status: Status,
}

impl Search {
    /// A fresh search for state `wnum`, at step zero.
    pub fn start(wnum: u8) -> (r: Search)
        ensures
            r == (Search { wnum, step: 0, status: Status::Searching }),
    {
        Search { wnum, step: 0, status: Status::Searching }
    }

    pub open spec fn plan_spec(self, s: Schedule) -> Plan {
        Plan {
            orthonormalise: self.wnum > 0,
            snap: self.step % s.snap_update == 0,
            evolve: self.step < s.max_steps,
        }
    }

    /// What the current iteration does.
    pub fn plan(&self, s: &Schedule) -> (r: Plan)
        requires
            s.wf(),
        ensures
            r == self.plan_spec(*s),
    {
        Plan {
            orthonormalise: self.wnum > 0,
            snap: self.step % s.snap_update == 0,
            evolve: self.step < s.max_steps,
        }
    }

    /// Records the outcome of the convergence test at a snap point: the
    /// search has converged exactly when the energy moved by less than the
    /// tolerance since the previous snap point.
    pub fn conclude_snap(&mut self, within_tolerance: bool)
        requires
            old(self).status == Status::Searching,
        ensures
            final(self).wnum == old(self).wnum,
            final(self).step == old(self).step,
            final(self).status == (if within_tolerance {
                Status::Converged
            } else {
                Status::Searching
            }),
    {
        if within_tolerance {
            self.status = Status::Converged;
        }
    }

    /// The search after moving on by `screen_update` steps.
    pub open spec fn advance_spec(self, s: Schedule) -> Search {
        Search {
            wnum: self.wnum,
            step: if self.step + s.screen_update <= u64::MAX {
                (self.step + s.screen_update) as u64
            } else {
                u64::MAX
            },
            status: if self.step + s.screen_update > s.max_steps {
                Status::Exhausted
            } else {
                Status::Searching
            },
        }
    }

    /// Moves on by `screen_update` steps; the search is exhausted once the
    /// step count passes `max_steps`. The counter stops at `u64::MAX`.
    pub fn advance(&mut self, s: &Schedule)
        requires
            s.wf(),
            old(self).status == Status::Searching,
        ensures
            *final(self) == old(self).advance_spec(*s),
    {
        match self.step.checked_add(s.screen_update) {
            Some(next) => {
                self.step = next;
                if next > s.max_steps {
                    self.status = Status::Exhausted;
                }
            },
            None => {
                self.step = u64::MAX;
                self.status = Status::Exhausted;
            },
        }
    }
}

/// A search that is still going has only visited steps that are multiples
/// of `screen_update`, and has not passed `max_steps`.
pub open spec fn search_invariant(r: Search, s: Schedule) -> bool {
    r.status == Status::Searching ==> r.step % s.screen_update == 0 && r.step <= s.max_steps
}

/// The search stays on the grid of `screen_update` steps and within
/// `max_steps` while it lasts: starting, concluding a snap point and
/// advancing all keep that, so evolution never runs past the step limit.
pub proof fn lemma_search_invariant(r: Search, s: Schedule, within_tolerance: bool)
    requires
        s.wf(),
        search_invariant(r, s),
    ensures
        search_invariant(Search { wnum: r.wnum, step: 0, status: Status::Searching }, s),
        r.status == Status::Searching ==> search_invariant(
            Search {
                status: if within_tolerance {
                    Status::Converged
                } else {
                    Status::Searching
                },
                ..r
            },
            s,
        ),
        r.status == Status::Searching ==> search_invariant(r.advance_spec(s), s),
{
    vstd::arithmetic::div_mod::lemma_small_mod(0, s.screen_update as nat);
    if r.status == Status::Searching && r.step + s.screen_update <= s.max_steps {
        vstd::arithmetic::div_mod::lemma_mod_adds(r.step as int, s.screen_update as int,
            s.screen_update as int);
        vstd::arithmetic::div_mod::lemma_mod_self_0(s.screen_update as int);
    }
}

/// How many more advances a search can make before it is over, counting
/// the one that ends it.
pub open spec fn advances_left(r: Search, s: Schedule) -> int {
    if r.status == Status::Searching {
        (s.max_steps - r.step) as int / (s.screen_update as int) + 1
    } else {
        0
    }
}

/// Every search ends: a fresh one can advance `max_steps / screen_update + 1`
/// times, and each advance of a search still going uses up exactly one of them.
pub proof fn lemma_search_ends(r: Search, s: Schedule)
    requires
        s.wf(),
        search_invariant(r, s),
        r.status == Status::Searching,
    ensures
        advances_left(Search { wnum: r.wnum, step: 0, status: Status::Searching }, s) == (s.max_steps
            as int) / (s.screen_update as int) + 1,
        advances_left(r, s) >= 1,
        advances_left(r.advance_spec(s), s) == advances_left(r, s) - 1,
{
    let x = (s.max_steps - r.step) as int;
    let d = s.screen_update as int;
    vstd::arithmetic::div_mod::lemma_div_pos_is_pos(x, d);
    if r.step + s.screen_update > s.max_steps {
        vstd::arithmetic::div_mod::lemma_basic_div(x, d);
    } else {
        let y = x - d;
        vstd::arithmetic::div_mod::lemma_fundamental_div_mod(y, d);
        vstd::arithmetic::div_mod::lemma_mod_bound(y, d);
        let q = y / d;
        let m = y % d;
        assert(x == (q + 1) * d + m) by (nonlinear_arith)
            requires
                y == d * q + m,
                x == y + d,
        ;
        vstd::arithmetic::div_mod::lemma_fundamental_div_mod_converse(x, d, q + 1, m);
    }
}

/// Where the starting wavefunction of a search comes from.
#[derive(Clone, Copy, Debug, PartialEq, Eq, Structural)]
pub enum Seed {
    /// A copy of the converged state at this position of the store.
    Stored(usize),
    /// The configured initial conditions.
    Initial,
}

/// The state below `wnum` where the store holds it, else the initial conditions.
pub open spec fn seed_spec(wnum: u8, stored: usize) -> Seed {
    if wnum > 0 && wnum - 1 < stored {
        Seed::Stored((wnum - 1) as usize)
    } else {
        Seed::Initial
    }
}

/// Chooses the seed of the search for state `wnum` when `stored` converged
/// states are held.
pub fn seed_for(wnum: u8, stored: usize) -> (r: Seed)
    ensures
        r == seed_spec(wnum, stored),
{
    if wnum > 0 && ((wnum - 1) as usize) < stored {
        Seed::Stored((wnum - 1) as usize)
    } else {
        Seed::Initial
    }
}

/// Walks the states `first..=last` in ascending order, each one only after
/// the one before has converged; one exhausted search ends the run.
#[derive(Clone, Copy, Debug, PartialEq, Eq, Structural)]
pub struct Orchestrator {
    pub next: u16,
    pub last: u8,
    pub aborted: bool,
}

impl Orchestrator {
    pub open spec fn wf(self) -> bool {
        self.next <= self.last + 1
    }

    pub fn new(first: u8, last: u8) -> (r: Orchestrator)
        requires
            first <= last,
        ensures
            r == (Orchestrator { next: first as u16, last, aborted: false }),
            r.wf(),
    {
        Orchestrator { next: first as u16, last, aborted: false }
    }

    pub open spec fn current_spec(self) -> Option<u8> {
        if !self.aborted && self.next <= self.last {
            Some(self.next as u8)
        } else {
            None
        }
    }

    /// The state to search for next; `None` once every state has converged
    /// or the run was aborted.
    pub fn current(&self) -> (r: Option<u8>)
        ensures
            r == self.current_spec(),
    {
        if !self.aborted && self.next <= self.last as u16 {
            Some(self.next as u8)
        } else {
            None
        }
    }

    /// Records how the search for the current state ended: on convergence
    /// the run moves to the next state, on exhaustion it is aborted.
    pub fn record(&mut self, outcome: Status)
        requires
            old(self).wf(),
            old(self).current_spec() is Some,
            outcome != Status::Searching,
        ensures
            final(self).wf(),
            final(self).last == old(self).last,
            outcome == Status::Converged ==> final(self).next == old(self).next + 1
                && !final(self).aborted,
            outcome == Status::Exhausted ==> final(self).next == old(self).next
                && final(self).aborted,
    {
        match outcome {
            Status::Exhausted => {
                self.aborted = true;
            },
            _ => {
                self.next = self.next + 1;
            },
        }
    }

    pub open spec fn succeeded_spec(self) -> Option<bool> {
        if self.aborted {
            Some(false)
        } else if self.next > self.last {
            Some(true)
        } else {
            None
        }
    }

    /// `Some(true)` once every state has converged, `Some(false)` once the
    /// run was aborted, `None` while states remain.
    pub fn succeeded(&self) -> (r: Option<bool>)
        ensures
            r == self.succeeded_spec(),
    {
        if self.aborted {
            Some(false)
        } else if self.next > self.last as u16 {
            Some(true)
        } else {
            None
        }
    }
}

/// Why a run ends before every requested state has converged.
#[derive(Clone, Copy, Debug, PartialEq, Eq, Structural)]
pub enum RunError {
    /// The supplier could not yield the potential.
    PotentialUnavailable,
    /// The potential has no finite entry, or its asymptotic part is not
    /// finite at some cell.
    PotentialNonFinite,
    /// The squared norm of a state is zero or not finite.
    DegenerateNorm,
    /// An array read from disk does not match the grid.
    ResolutionMismatch,
    /// A search passed its step limit without converging.
    Exhausted,
    /// Reading or writing failed.
    IoFailure,
}

/// The error of a run that a failed read of an input array gives.
pub fn load_failure(e: LoadError) -> (r: RunError)
    ensures
        r == (match e {
            LoadError::ResolutionMismatch(_) => RunError::ResolutionMismatch,
            _ => RunError::IoFailure,
        }),
{
    match e {
        LoadError::ResolutionMismatch(_) => RunError::ResolutionMismatch,
        _ => RunError::IoFailure,
    }
}

/// Exit status of the program: zero when every state converged.
pub fn exit_code(outcome: &Result<(), RunError>) -> (r: i32)
    ensures
        (r == 0) <==> outcome is Ok,
{
    match outcome {
        Ok(()) => 0,
        Err(_) => 1,
    }
}

} // verus!
