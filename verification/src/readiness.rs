//! The readiness state machine.
//!
//! Two programs are compiled in the background: one that initialises the
//! render target and one that updates it every frame. The phase follows their
//! compile status, polled once per frame, and only ever moves forward:
//! `Loading` until the init program is ready, `Init` until the update program
//! is ready, then `Update` for good.

use vstd::prelude::*;

verus! {

/// What a poll of the pipeline cache reports for one program.
#[derive(Clone, Copy, Debug, PartialEq, Eq, Structural)]
pub enum CompileStatus {
    /// Queued or still compiling.
    Pending,
    /// Compiled; the pipeline can be dispatched.
    Ready,
    /// The cache gave up on it, for now or for good.
    Failed,
}

/// The two programs of the orchestrator, named by their entry points.
#[derive(Clone, Copy, Debug, PartialEq, Eq, Structural)]
pub enum Program {
    /// One-time initialisation of the render target.
    Init,
    /// Per-frame update of the render target.
    Update,
}

/// Readiness phase of the orchestrator.
#[derive(Clone, Copy, Debug, PartialEq, Eq, Structural)]
pub enum MyComputeShaderState {
    /// The init program is not ready yet.
    Loading,
    /// The init program is ready, the update program is not.
    Init,
    /// Both programs are ready.
    Update,
}

impl MyComputeShaderState {
    /// Position of the phase along its one-way path.
    pub open spec fn rank(self) -> nat {
        match self {
            MyComputeShaderState::Loading => 0,
            MyComputeShaderState::Init => 1,
            MyComputeShaderState::Update => 2,
        }
    }

    /// The program whose compile the phase is waiting for.
    pub open spec fn awaited(self) -> Option<Program> {
        match self {
            MyComputeShaderState::Loading => Some(Program::Init),
            MyComputeShaderState::Init => Some(Program::Update),
            MyComputeShaderState::Update => None,
        }
    }

    /// The phase after one poll that reported `status` for the awaited
    /// program. Only `Ready` moves it; a program that fails, or that stops
    /// being ready later on, never moves it back.
    pub open spec fn after_poll(self, status: CompileStatus) -> MyComputeShaderState {
        match (self, status) {
            (MyComputeShaderState::Loading, CompileStatus::Ready) => MyComputeShaderState::Init,
            (MyComputeShaderState::Init, CompileStatus::Ready) => MyComputeShaderState::Update,
            _ => self,
        }
    }

    /// The phase after one frame in which the two programs report `init` and
    /// `update`. A frame takes at most one step.
    pub open spec fn step(
        self,
        init: CompileStatus,
        update: CompileStatus,
    ) -> MyComputeShaderState {
        match self {
            MyComputeShaderState::Loading => self.after_poll(init),
            MyComputeShaderState::Init => self.after_poll(update),
            MyComputeShaderState::Update => self,
        }
    }

    /// Names the program to poll in this phase, if any is still awaited.
    pub fn awaits(&self) -> (program: Option<Program>)
        ensures
            program == self.awaited(),
    {
        match self {
            MyComputeShaderState::Loading => Some(Program::Init),
            MyComputeShaderState::Init => Some(Program::Update),
            MyComputeShaderState::Update => None,
        }
    }

    /// Takes the status polled for the awaited program and gives the next
    /// phase.
    pub fn next(self, status: CompileStatus) -> (phase: MyComputeShaderState)
        ensures
            phase == self.after_poll(status),
    {
        match (self, status) {
            (MyComputeShaderState::Loading, CompileStatus::Ready) => MyComputeShaderState::Init,
            (MyComputeShaderState::Init, CompileStatus::Ready) => MyComputeShaderState::Update,
            _ => self,
        }
    }

    /// Takes the status of both programs and gives the next phase.
    pub fn advance(self, init: CompileStatus, update: CompileStatus) -> (phase:
        MyComputeShaderState)
        ensures
            phase == self.step(init, update),
    {
        match self {
            MyComputeShaderState::Loading => self.next(init),
            MyComputeShaderState::Init => self.next(update),
            MyComputeShaderState::Update => self,
        }
    }
}

/// The phase reached from `start` after one frame per entry of `polls`, each
/// entry holding what the init and the update program reported in that frame.
pub open spec fn phase_after(
    start: MyComputeShaderState,
    polls: Seq<(CompileStatus, CompileStatus)>,
) -> MyComputeShaderState
    decreases polls.len(),
{
    if polls.len() == 0 {
        start
    } else {
        phase_after(start, polls.drop_last()).step(polls.last().0, polls.last().1)
    }
}

/// Both programs report `Ready` in every frame from `since` on.
pub open spec fn both_ready_since(polls: Seq<(CompileStatus, CompileStatus)>, since: int) -> bool {
    forall|k: int|
        since <= k < polls.len() ==> #[trigger] polls[k] == (
            CompileStatus::Ready,
            CompileStatus::Ready,
        )
}

/// One frame moves the phase forward by at most one position and never back,
/// whatever the programs report.
pub proof fn lemma_step_moves_forward(
    phase: MyComputeShaderState,
    init: CompileStatus,
    update: CompileStatus,
)
    ensures
        phase.rank() <= phase.step(init, update).rank() <= phase.rank() + 1,
        phase == MyComputeShaderState::Update ==> phase.step(init, update)
            == MyComputeShaderState::Update,
{
}

/// Over any run of frames the phase never regresses: what it had reached
/// after the first `earlier` frames, it still has after the first `later`.
pub proof fn lemma_phase_never_regresses(
    start: MyComputeShaderState,
    polls: Seq<(CompileStatus, CompileStatus)>,
    earlier: int,
    later: int,
)
    requires
        0 <= earlier <= later <= polls.len(),
    ensures
        phase_after(start, polls.take(earlier)).rank() <= phase_after(
            start,
            polls.take(later),
        ).rank(),
    decreases later - earlier,
{
    if earlier < later {
        lemma_phase_never_regresses(start, polls, earlier, later - 1);
        let longer = polls.take(later);
        assert(longer.drop_last() =~= polls.take(later - 1));
        lemma_step_moves_forward(
            phase_after(start, polls.take(later - 1)),
            longer.last().0,
            longer.last().1,
        );
    }
}

/// Once `Update` is reached it is kept, whatever is reported afterwards.
pub proof fn lemma_update_is_absorbing(polls: Seq<(CompileStatus, CompileStatus)>)
    ensures
        phase_after(MyComputeShaderState::Update, polls) == MyComputeShaderState::Update,
    decreases polls.len(),
{
    if polls.len() > 0 {
        lemma_update_is_absorbing(polls.drop_last());
    }
}

/// Every frame in which both programs report `Ready` moves the phase one
/// position forward until `Update` is reached: after the frames up to `since`
/// and `polls.len() - since` further frames of both being ready, the phase has
/// gained that many positions or is `Update`. Two such frames always suffice.
pub proof fn lemma_ready_reaches_update(
    start: MyComputeShaderState,
    polls: Seq<(CompileStatus, CompileStatus)>,
    since: int,
)
    requires
        0 <= since <= polls.len(),
        both_ready_since(polls, since),
    ensures
        phase_after(start, polls).rank() == if phase_after(start, polls.take(since)).rank() + (
        polls.len() - since) < 2 {
            phase_after(start, polls.take(since)).rank() + (polls.len() - since)
        } else {
            2
        },
        polls.len() - since >= 2 ==> phase_after(start, polls) == MyComputeShaderState::Update,
    decreases polls.len() - since,
{
    if since == polls.len() {
        assert(polls.take(since) =~= polls);
    } else {
        let shorter = polls.drop_last();
        assert(shorter.take(since) =~= polls.take(since));
        assert forall|k: int| since <= k < shorter.len() implies #[trigger] shorter[k] == (
            CompileStatus::Ready,
            CompileStatus::Ready,
        ) by {
            assert(shorter[k] == polls[k]);
        }
        lemma_ready_reaches_update(start, shorter, since);
        assert(polls.last() == polls[polls.len() - 1]);
    }
}

} // verus!
