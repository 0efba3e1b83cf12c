//! The render loop's decision core: what one tick does with the inbox and
//! the shutdown flag, and the terminal teardown discipline.

use vstd::prelude::*;

verus! {

/// A command for the render loop. The message payload itself is carried by
/// the embedding program and never examined here.
#[derive(Clone, Copy, PartialEq, Eq, Structural, Debug)]
pub enum RenderUpdate {
    NewMessage,
    Exit,
}

/// The terminal as the render loop models it: whether the raw/alternate
/// modes are currently held, how often they were restored, and how many
/// message commands were acknowledged.
pub struct TerminalModel {
    pub active: bool,
    pub restores: int,
    pub handled: int,
}

/// The terminal owned by the render loop.
pub struct TerminalState {
    active: bool,
    restores: usize,
    handled: usize,
}

impl View for TerminalState {
    type V = TerminalModel;

    closed spec fn view(&self) -> TerminalModel {
        TerminalModel {
            active: self.active,
            restores: self.restores as int,
            handled: self.handled as int,
        }
    }
}

/// Well-formedness: the modes are entered once at creation and never
/// re-entered, so restoration can have happened at most once, and not yet
/// while the modes are still held.
pub open spec fn wf_terminal(m: TerminalModel) -> bool {
    &&& 0 <= m.restores <= 1
    &&& m.active ==> m.restores == 0
    &&& 0 <= m.handled
}

/// What teardown leaves behind: the modes restored exactly once, and a
/// second teardown changing nothing.
pub open spec fn spec_teardown(m: TerminalModel) -> TerminalModel {
    if m.active {
        TerminalModel { active: false, restores: m.restores + 1, handled: m.handled }
    } else {
        m
    }
}

/// Tearing down an already torn-down terminal changes nothing: teardown is
/// idempotent, so a double restore cannot happen.
pub proof fn lemma_teardown_idempotent(m: TerminalModel)
    ensures
        spec_teardown(spec_teardown(m)) == spec_teardown(m),
{
}

/// What one render command does to the terminal: an exit command tears the
/// terminal down, a new message is acknowledged, an empty inbox changes
/// nothing.
pub open spec fn spec_update(m: TerminalModel, command: Option<RenderUpdate>) -> TerminalModel {
    match command {
        Some(RenderUpdate::Exit) => spec_teardown(m),
        Some(RenderUpdate::NewMessage) => TerminalModel {
            active: m.active,
            restores: m.restores,
            handled: m.handled + 1,
        },
        None => m,
    }
}

impl TerminalState {
    /// Takes ownership of the terminal right after the modes were entered.
    pub fn new() -> (s: Self)
        ensures
            s@ == (TerminalModel { active: true, restores: 0, handled: 0 }),
            wf_terminal(s@),
    {
        TerminalState { active: true, restores: 0, handled: 0 }
    }

    /// Restores the terminal modes, once: a later call finds nothing left
    /// to restore and does nothing.
    pub fn teardown(&mut self)
        requires
            wf_terminal(old(self)@),
        ensures
            final(self)@ == spec_teardown(old(self)@),
            wf_terminal(final(self)@),
    {
        if self.active {
            self.active = false;
            self.restores = self.restores + 1;
        }
    }

    /// Applies one received render command, or none when the inbox was
    /// empty, and says whether the loop must end: only an exit command
    /// ends it, and that tears the terminal down first.
    pub fn update(&mut self, command: Option<RenderUpdate>) -> (quit: bool)
        requires
            wf_terminal(old(self)@),
            old(self)@.handled < usize::MAX,
        ensures
            quit == (command == Some(RenderUpdate::Exit)),
            final(self)@ == spec_update(old(self)@, command),
            wf_terminal(final(self)@),
    {
        match command {
            Some(RenderUpdate::Exit) => {
                self.teardown();
                true
            },
            Some(RenderUpdate::NewMessage) => {
                self.handled = self.handled + 1;
                false
            },
            None => false,
        }
    }

    pub fn is_active(&self) -> (b: bool)
        ensures
            b == self@.active,
    {
        self.active
    }

    pub fn restore_count(&self) -> (n: usize)
        ensures
            n == self@.restores,
    {
        self.restores
    }

    pub fn handled_count(&self) -> (n: usize)
        ensures
            n == self@.handled,
    {
        self.handled
    }

    /// Runs the render loop over the given ticks: each tick first observes
    /// the shutdown flag and ends the loop when it is raised, else applies
    /// one non-blocking receive's result; an exit command ends the loop
    /// after tearing the terminal down. On the shutdown path the terminal
    /// is torn down as well, so acquisition and release stay paired on
    /// every path out of the loop. A run that exhausts its ticks is still
    /// going: the terminal stays as the last tick left it.
    #[verifier::loop_isolation(false)]
    pub fn run(&mut self, ticks: &Vec<RenderTick>) -> (r: RenderRunReport)
        requires
            wf_terminal(old(self)@),
            old(self)@.handled + ticks@.len() <= usize::MAX,
        ensures
            ({
                let m = spec_render(ticks@, 0, old(self)@);
                &&& r.outcome == m.outcome
                &&& r.ticks_run == m.ticks_run
                &&& final(self)@ == m.state
                &&& wf_terminal(final(self)@)
            }),
    {
        let ghost m0 = self@;
        let ghost total = spec_render(ticks@, 0, m0);
        let mut i: usize = 0;
        loop
            invariant
                i <= ticks@.len(),
                wf_terminal(self@),
                self@.handled <= m0.handled + i,
                m0.handled + ticks@.len() <= usize::MAX,
                total == spec_render(ticks@, 0, m0),
                ({
                    let rest = spec_render(ticks@, i as int, self@);
                    &&& total.outcome == rest.outcome
                    &&& total.ticks_run == i + rest.ticks_run
                    &&& total.state == rest.state
                }),
            decreases ticks@.len() - i,
        {
            if i == ticks.len() {
                return RenderRunReport { outcome: RenderOutcome::StillRunning, ticks_run: i };
            }
            let tick = ticks[i];
            if tick.shutdown {
                self.teardown();
                return RenderRunReport {
                    outcome: RenderOutcome::StoppedByShutdown,
                    ticks_run: i + 1,
                };
            }
            let quit = self.update(tick.command);
            if quit {
                return RenderRunReport {
                    outcome: RenderOutcome::ExitedByCommand,
                    ticks_run: i + 1,
                };
            }
            i = i + 1;
        }
    }
}

/// What the render loop saw during one tick: the shutdown flag at the top
/// of the tick, and what one non-blocking receive from the inbox produced.
#[derive(Clone, Copy, PartialEq, Eq, Structural, Debug)]
pub struct RenderTick {
    pub shutdown: bool,
    pub command: Option<RenderUpdate>,
}

/// How a run of the render loop ended.
#[derive(Clone, Copy, PartialEq, Eq, Structural, Debug)]
pub enum RenderOutcome {
    /// An exit command arrived and the terminal was torn down.
    ExitedByCommand,
    /// The shutdown flag ended the loop; the terminal was torn down too.
    StoppedByShutdown,
    /// The ticks ran out with neither: the loop would still be going.
    StillRunning,
}

/// What one run of the render loop came to, at the model level.
pub struct RenderModel {
    pub outcome: RenderOutcome,
    pub ticks_run: int,
    pub state: TerminalModel,
}

/// What one run of the render loop came to.
#[derive(Clone, Copy, PartialEq, Eq, Structural, Debug)]
pub struct RenderRunReport {
    pub outcome: RenderOutcome,
    pub ticks_run: usize,
}

/// The render loop over the ticks from `i` on, starting from terminal
/// state `m`: stops at the first tick that sees the shutdown flag or
/// receives an exit command, tearing the terminal down either way.
pub open spec fn spec_render(ticks: Seq<RenderTick>, i: int, m: TerminalModel) -> RenderModel
    decreases ticks.len() - i,
{
    if i < 0 || i >= ticks.len() {
        RenderModel { outcome: RenderOutcome::StillRunning, ticks_run: 0, state: m }
    } else if ticks[i].shutdown {
        RenderModel {
            outcome: RenderOutcome::StoppedByShutdown,
            ticks_run: 1,
            state: spec_teardown(m),
        }
    } else if ticks[i].command == Some(RenderUpdate::Exit) {
        RenderModel {
            outcome: RenderOutcome::ExitedByCommand,
            ticks_run: 1,
            state: spec_update(m, ticks[i].command),
        }
    } else {
        let rest = spec_render(ticks, i + 1, spec_update(m, ticks[i].command));
        RenderModel {
            outcome: rest.outcome,
            ticks_run: rest.ticks_run + 1,
            state: rest.state,
        }
    }
}

proof fn lemma_shutdown_bounds_from(ticks: Seq<RenderTick>, i: int, m: TerminalModel, j: int)
    requires
        0 <= i <= j < ticks.len(),
        ticks[j].shutdown,
    ensures
        spec_render(ticks, i, m).ticks_run <= j - i + 1,
    decreases j - i,
{
    if !ticks[i].shutdown && ticks[i].command != Some(RenderUpdate::Exit) {
        lemma_shutdown_bounds_from(ticks, i + 1, spec_update(m, ticks[i].command), j);
    }
}

/// No indefinite hang: once the shutdown flag is raised, the loop ends on
/// the tick that observes it, so a run never takes more than `j + 1` ticks
/// when tick `j` sees the flag — whether or not an exit command ever came.
pub proof fn lemma_shutdown_bounds_run(ticks: Seq<RenderTick>, m: TerminalModel, j: int)
    requires
        0 <= j < ticks.len(),
        ticks[j].shutdown,
    ensures
        spec_render(ticks, 0, m).ticks_run <= j + 1,
{
    lemma_shutdown_bounds_from(ticks, 0, m, j);
}

proof fn lemma_paired_teardown_from(ticks: Seq<RenderTick>, i: int, m: TerminalModel)
    requires
        wf_terminal(m),
        m.active,
    ensures
        ({
            let r = spec_render(ticks, i, m);
            !(r.outcome is StillRunning) ==> !r.state.active && r.state.restores == 1
        }),
    decreases ticks.len() - i,
{
    if 0 <= i < ticks.len() && !ticks[i].shutdown
        && ticks[i].command != Some(RenderUpdate::Exit) {
        lemma_paired_teardown_from(ticks, i + 1, spec_update(m, ticks[i].command));
    }
}

/// Entering and restoring the terminal modes stay paired: however a run
/// of the loop ends — by an exit command or by the shutdown flag — the
/// modes entered at setup are restored, exactly once.
pub proof fn lemma_paired_teardown(ticks: Seq<RenderTick>, m: TerminalModel)
    requires
        wf_terminal(m),
        m.active,
    ensures
        ({
            let r = spec_render(ticks, 0, m);
            !(r.outcome is StillRunning) ==> !r.state.active && r.state.restores == 1
        }),
{
    lemma_paired_teardown_from(ticks, 0, m);
}

} // verus!
