use vstd::prelude::*;
use crate::instruction::SimInstruction;

verus! {

/// A step that the robot carries out for some time.
#[derive(Clone, Copy, Debug, PartialEq, Eq, Structural)]
pub enum BaseInstruction {
    Back,
    Forward,
    Left,
    Right,
}

/// Where the scheduler stands in its cycle: waiting for a command, executing
/// one, or done with it and about to hand the channel back.
#[derive(Clone, Copy, Debug, PartialEq, Eq, Structural)]
pub enum HandlerState {
    Waiting,
    Executing,
    Done,
}

/// A base instruction with a time in milliseconds.
pub type Segment = (BaseInstruction, u64);

/// What the scheduler holds: the steps still to run, the first one with the
/// time it has left, and the state of the cycle.
pub struct HandlerView {
    pub pending: Seq<Segment>,
    pub state: HandlerState,
}

/// The base instructions, with their durations in milliseconds, that a
/// motion command expands into; `None` for a command that moves nothing.
pub open spec fn expansion(instr: SimInstruction) -> Option<Seq<Segment>> {
    match instr {
        SimInstruction::MoveBack => Some(seq![(BaseInstruction::Back, 100u64)]),
        SimInstruction::MoveForward => Some(seq![(BaseInstruction::Forward, 150u64)]),
        SimInstruction::MoveLeft => Some(seq![(BaseInstruction::Left, 50u64)]),
        SimInstruction::MoveRight => Some(seq![(BaseInstruction::Right, 50u64)]),
        SimInstruction::MoveLongRight => Some(seq![(BaseInstruction::Right, 1100u64)]),
        SimInstruction::Evade => Some(
            seq![(BaseInstruction::Back, 400u64), (BaseInstruction::Right, 800u64)],
        ),
        _ => None,
    }
}

/// Runs the schedule `p` for `d` milliseconds: each step whose time `d`
/// exceeds is run whole and dropped, and the next one runs for what is left
/// of `d`. Gives the pieces that ran and the schedule that remains.
pub open spec fn run(p: Seq<Segment>, d: u64) -> (Seq<Segment>, Seq<Segment>)
    decreases p.len(),
{
    if p.len() == 0 {
        (Seq::empty(), Seq::empty())
    } else if d > p[0].1 {
        let rest = run(p.drop_first(), (d - p[0].1) as u64);
        (seq![p[0]] + rest.0, rest.1)
    } else {
        (seq![(p[0].0, d)], p.update(0, (p[0].0, (p[0].1 - d) as u64)))
    }
}

/// Total time of a schedule, in milliseconds.
pub open spec fn total(p: Seq<Segment>) -> int
    decreases p.len(),
{
    if p.len() == 0 {
        0
    } else {
        p[0].1 + total(p.drop_first())
    }
}

/// The scheduler state after a reset, whatever it was before.
pub open spec fn reset_view(v: HandlerView) -> HandlerView {
    HandlerView { pending: Seq::empty(), state: HandlerState::Done }
}

/// Keeps track of the base instructions of the command being executed, how
/// long the first of them still has to run, and what comes next.
#[derive(Debug)]
pub struct InstructionHandler {
    instructions: Vec<Segment>,
    remaining_time: u64,
    state: HandlerState,
}

impl View for InstructionHandler {
    type V = HandlerView;

    closed spec fn view(&self) -> HandlerView {
        HandlerView {
            pending: if self.instructions@.len() == 0 {
                self.instructions@
            } else {
                self.instructions@.update(
                    0,
                    (self.instructions@[0].0, self.remaining_time),
                )
            },
            state: self.state,
        }
    }
}

impl Default for InstructionHandler {
    fn default() -> (r: Self)
        ensures
            r@.pending.len() == 0,
            r@.state == HandlerState::Waiting,
    {
        InstructionHandler::new()
    }
}

/// The base instructions of a motion command.
pub fn base_instructions(instr: SimInstruction) -> (r: Vec<Segment>)
    requires
        expansion(instr).is_some(),
    ensures
        r@ == expansion(instr).unwrap(),
{
    let r = match instr {
        SimInstruction::MoveBack => vec![(BaseInstruction::Back, 100u64)],
        SimInstruction::MoveForward => vec![(BaseInstruction::Forward, 150u64)],
        SimInstruction::MoveLeft => vec![(BaseInstruction::Left, 50u64)],
        SimInstruction::MoveRight => vec![(BaseInstruction::Right, 50u64)],
        SimInstruction::MoveLongRight => vec![(BaseInstruction::Right, 1100u64)],
        _ => vec![(BaseInstruction::Back, 400u64), (BaseInstruction::Right, 800u64)],
    };
    assert(r@ =~= expansion(instr).unwrap());
    r
}

impl InstructionHandler {
    /// An empty scheduler, waiting for a command.
    pub fn new() -> (r: Self)
        ensures
            r@.pending.len() == 0,
            r@.state == HandlerState::Waiting,
    {
        InstructionHandler {
            instructions: Vec::with_capacity(2),
            remaining_time: 0,
            state: HandlerState::Waiting,
        }
    }

    /// The state of the cycle.
    pub fn state(&self) -> (r: HandlerState)
        ensures
            r == self@.state,
    {
        self.state
    }

    /// Whether a new command may be given: true unless one is executing.
    pub fn available(&self) -> (r: bool)
        ensures
            r == (self@.state != HandlerState::Executing),
    {
        self.state != HandlerState::Executing
    }

    pub fn wait(&mut self)
        ensures
            final(self)@ == (HandlerView { state: HandlerState::Waiting, ..old(self)@ }),
    {
        self.state = HandlerState::Waiting;
    }

    pub fn execute(&mut self)
        ensures
            final(self)@ == (HandlerView { state: HandlerState::Executing, ..old(self)@ }),
    {
        self.state = HandlerState::Executing;
    }

    pub fn done(&mut self)
        ensures
            final(self)@ == (HandlerView { state: HandlerState::Done, ..old(self)@ }),
    {
        self.state = HandlerState::Done;
    }

    /// Starts executing `instructions`, the first one for its whole time.
    pub fn dispatch(&mut self, instructions: Vec<Segment>)
        requires
            instructions@.len() > 0,
        ensures
            final(self)@ == (HandlerView { pending: instructions@, state: HandlerState::Executing }),
    {
        self.remaining_time = instructions[0].1;
        self.instructions = instructions;
        self.state = HandlerState::Executing;
        assert(self@.pending =~= instructions@);
    }

    /// Starts executing the base instructions of motion command `instruction`.
    pub fn set(&mut self, instruction: SimInstruction)
        requires
            expansion(instruction).is_some(),
        ensures
            final(self)@ == (HandlerView {
                pending: expansion(instruction).unwrap(),
                state: HandlerState::Executing,
            }),
    {
        self.dispatch(base_instructions(instruction));
    }

    /// The base instruction being executed, with the time it has left.
    pub fn current(&self) -> (r: Option<Segment>)
        ensures
            r == (if self@.pending.len() == 0 {
                None
            } else {
                Some(self@.pending[0])
            }),
    {
        if self.instructions.len() == 0 {
            None
        } else {
            Some((self.instructions[0].0, self.remaining_time))
        }
    }

    /// Drops the base instruction being executed and starts the next one for
    /// its whole time; done when none is left.
    pub fn next(&mut self)
        requires
            old(self)@.pending.len() > 0,
        ensures
            final(self)@.pending == old(self)@.pending.drop_first(),
            final(self)@.state == (if old(self)@.pending.len() == 1 {
                HandlerState::Done
            } else {
                old(self)@.state
            }),
    {
        self.instructions.remove(0);
        if self.instructions.len() == 0 {
            self.done();
        } else {
            self.remaining_time = self.instructions[0].1;
        }
        assert(self@.pending =~= old(self)@.pending.drop_first());
    }

    /// Runs the schedule for `delta` milliseconds and returns the pieces that
    /// ran, in order, each with the time it ran for. A step that `delta`
    /// exceeds runs whole and is dropped, so a step ends inside a tick where
    /// its time ends; the step reached last runs for what is left of `delta`.
    /// When the schedule runs out the cycle is done.
    pub fn advance(&mut self, delta: u64) -> (r: Vec<Segment>)
        ensures
            r@ == run(old(self)@.pending, delta).0,
            final(self)@.pending == run(old(self)@.pending, delta).1,
            final(self)@.state == (if old(self)@.pending.len() > 0 && final(self)@.pending.len()
                == 0 {
                HandlerState::Done
            } else {
                old(self)@.state
            }),
    {
        let ghost p0 = self@.pending;
        let ghost s0 = self@.state;
        let ghost d0 = delta;
        let mut segments: Vec<Segment> = Vec::new();
        let mut delta = delta;
        while self.instructions.len() > 0 && delta > self.remaining_time
            invariant
                run(p0, d0).0 == segments@ + run(self@.pending, delta).0,
                run(p0, d0).1 == run(self@.pending, delta).1,
                self@.state == (if p0.len() > 0 && self@.pending.len() == 0 {
                    HandlerState::Done
                } else {
                    s0
                }),
            decreases self@.pending.len(),
        {
            let ghost before = self@.pending;
            let ghost d = delta;
            let ghost segs = segments@;
            let step = (self.instructions[0].0, self.remaining_time);
            segments.push(step);
            delta = delta - self.remaining_time;
            self.next();
            proof {
                assert(before.drop_first() =~= self@.pending);
                vstd::seq_lib::lemma_concat_associative(segs, seq![step], run(self@.pending, delta).0);
                assert(segs.push(step) =~= segs + seq![step]);
            }
        }
        if self.instructions.len() > 0 {
            segments.push((self.instructions[0].0, delta));
            self.remaining_time = self.remaining_time - delta;
        }
        segments
    }

    /// Clears the schedule and marks the cycle done.
    pub fn reset(&mut self)
        ensures
            final(self)@ == reset_view(old(self)@),
    {
        self.instructions.clear();
        self.remaining_time = 0;
        self.state = HandlerState::Done;
        assert(self@.pending =~= Seq::<Segment>::empty());
    }
}


proof fn lemma_total_nonneg(p: Seq<Segment>)
    ensures
        total(p) >= 0,
    decreases p.len(),
{
    if p.len() > 0 {
        lemma_total_nonneg(p.drop_first());
    }
}

proof fn lemma_total_concat(a: Seq<Segment>, b: Seq<Segment>)
    ensures
        total(a + b) == total(a) + total(b),
    decreases a.len(),
{
    if a.len() == 0 {
        assert(a + b =~= b);
    } else {
        assert((a + b).drop_first() =~= a.drop_first() + b);
        lemma_total_concat(a.drop_first(), b);
    }
}

/// Running a schedule for `d` milliseconds runs exactly `d` of it, or all of
/// it when it is shorter, and what remains holds the rest of its time: no
/// time is lost or added at the boundaries between steps.
pub proof fn lemma_run_time(p: Seq<Segment>, d: u64)
    ensures
        total(run(p, d).0) == (if d < total(p) { d as int } else { total(p) }),
        total(run(p, d).0) + total(run(p, d).1) == total(p),
    decreases p.len(),
{
    if p.len() > 0 {
        let tail = p.drop_first();
        lemma_total_nonneg(tail);
        if d > p[0].1 {
            let rest = run(tail, (d - p[0].1) as u64);
            lemma_run_time(tail, (d - p[0].1) as u64);
            lemma_total_concat(seq![p[0]], rest.0);
            assert(seq![p[0]].drop_first() =~= Seq::<Segment>::empty());
            assert(total(seq![p[0]]) == p[0].1 + total(Seq::<Segment>::empty()));
            assert(run(p, d).0 == seq![p[0]] + rest.0);
        } else {
            let first: Seq<Segment> = seq![(p[0].0, d)];
            let left = p.update(0, (p[0].0, (p[0].1 - d) as u64));
            assert(first.drop_first() =~= Seq::<Segment>::empty());
            assert(total(first) == d + total(Seq::<Segment>::empty()));
            assert(left.drop_first() =~= tail);
            assert(total(left) == (p[0].1 - d) + total(tail));
            assert(run(p, d) == (first, left));
        }
    }
}

/// Resetting the scheduler twice in a row leaves it as resetting it once.
pub proof fn lemma_reset_idempotent(v: HandlerView)
    ensures
        reset_view(reset_view(v)) == reset_view(v),
{
}

} // verus!
