use vstd::prelude::*;
use crate::instruction::SimInstruction;
use crate::channel::{AISimMem, decode, exported_reads};
use crate::scheduler::{
    InstructionHandler, HandlerView, HandlerState, Segment, expansion, run, reset_view,
};

verus! {

/// Who drives the robot: the keyboard or the controlling process.
#[derive(Clone, Copy, Debug, PartialEq, Eq, Structural)]
pub enum ControlMode {
    Manual,
    AI,
}

/// One of the robot's two cameras.
#[derive(Clone, Copy, Debug, PartialEq, Eq, Structural)]
pub enum Camera {
    Front,
    Rear,
}

/// What the caller has to do after a step of the controller.
#[derive(Clone, Copy, Debug, PartialEq, Eq, Structural)]
pub enum AiAction {
    /// Nothing.
    Idle,
    /// Capture a frame of this camera and hand it to `AISimMem::export_frame`.
    CaptureFrame(Camera),
    /// Drop this many cans behind the robot.
    DumpCans(u8),
}

/// A key that drives the robot by hand.
#[derive(Clone, Copy, Debug, PartialEq, Eq, Structural)]
pub enum Key {
    /// Hands driving between the keyboard and the controlling process.
    Space,
    /// Resets the robot.
    R,
    W,
    S,
    A,
    D,
}

/// The motion command of a driving key.
pub open spec fn key_instruction(key: Key) -> Option<SimInstruction> {
    match key {
        Key::W => Some(SimInstruction::MoveForward),
        Key::S => Some(SimInstruction::MoveBack),
        Key::A => Some(SimInstruction::MoveLeft),
        Key::D => Some(SimInstruction::MoveRight),
        _ => None,
    }
}

/// A front infrared sensor reports an obstacle below this reading.
pub const FRONT_INFRARED_TRIGGER: u8 = 50;
/// A rear infrared sensor reports an obstacle when the ultrasonic sensor on
/// its side reads below this.
pub const REAR_INFRARED_TRIGGER: u8 = 8;

/// Whether the simulation holds the channel while the control byte is `b`:
/// a request of the controlling process is posted, or a capture is pending.
pub open spec fn sim_holds(b: u8) -> bool {
    b == AISimMem::AI_FRONT_CAM_REQUEST || b == AISimMem::AI_REAR_CAM_REQUEST || b
        == AISimMem::AI_PROX_SENSOR_READ_REQUEST || b == AISimMem::AI_DUMP_CANS || b
        == AISimMem::AI_MOVE_INSTRUCTION || b == AISimMem::SIM_SCAN_WAIT
}

/// The report of the robot's sensors, as the real robot sends it, from the
/// readings of its seven proximity sensors in the simulation: the two rear
/// ultrasonic readings as they are, three front infrared flags, and two rear
/// infrared flags derived from the ultrasonic readings.
pub open spec fn report_of(raw: Seq<u8>) -> Seq<u8> {
    Seq::new(
        7,
        |i: int|
            if i < 2 {
                raw[i]
            } else if i < 5 {
                if raw[i] < FRONT_INFRARED_TRIGGER {
                    1u8
                } else {
                    0u8
                }
            } else {
                if raw[i - 5] < REAR_INFRARED_TRIGGER {
                    1u8
                } else {
                    0u8
                }
            },
    )
}

/// Whether the simulation holds the channel while the control byte is `b`.
pub fn sim_holds_byte(b: u8) -> (r: bool)
    ensures
        r == sim_holds(b),
{
    b == AISimMem::AI_FRONT_CAM_REQUEST || b == AISimMem::AI_REAR_CAM_REQUEST || b
        == AISimMem::AI_PROX_SENSOR_READ_REQUEST || b == AISimMem::AI_DUMP_CANS || b
        == AISimMem::AI_MOVE_INSTRUCTION || b == AISimMem::SIM_SCAN_WAIT
}

/// Builds the sensor report from the seven proximity readings.
pub fn proximity_report(raw: &Vec<u8>) -> (r: Vec<u8>)
    requires
        raw@.len() == AISimMem::MAX_PROXIMITY_SENSOR_COUNT,
    ensures
        r@ == report_of(raw@),
{
    let mut r: Vec<u8> = Vec::new();
    r.push(raw[0]);
    r.push(raw[1]);
    let mut i: usize = 2;
    while i < 5
        invariant
            2 <= i <= 5,
            raw@.len() == 7,
            r@.len() == i,
            forall|j: int| 0 <= j < i ==> r@[j] == report_of(raw@)[j],
        decreases 5 - i,
    {
        r.push(if raw[i] < FRONT_INFRARED_TRIGGER { 1 } else { 0 });
        i = i + 1;
    }
    r.push(if raw[0] < REAR_INFRARED_TRIGGER { 1 } else { 0 });
    r.push(if raw[1] < REAR_INFRARED_TRIGGER { 1 } else { 0 });
    assert(r@ =~= report_of(raw@));
    r
}

/// What the controller holds: the scheduler, who drives, and the brush.
pub struct ControlView {
    pub handler: HandlerView,
    pub mode: ControlMode,
    pub brush_on: bool,
}

/// The region after the simulation takes up command `instr`: a capture
/// marks the channel as waiting, a sensor request is answered at once, the
/// brush, stop and can commands are acknowledged at once, and a motion
/// command is acknowledged only when it is done.
pub open spec fn reply(mem: Seq<u8>, instr: SimInstruction, raw: Seq<u8>) -> Seq<u8> {
    match instr {
        SimInstruction::FrontCamFrame | SimInstruction::RearCamFrame => mem.update(
            0,
            AISimMem::SIM_SCAN_WAIT,
        ),
        SimInstruction::ProxSensorReads => exported_reads(mem, report_of(raw)),
        SimInstruction::DumpCans(_) | SimInstruction::BrushOn | SimInstruction::BrushOff
        | SimInstruction::StopAll => mem.update(0, AISimMem::SIM_AKNOWLEDGE_INSTRUCTION),
        _ => mem,
    }
}

/// What the caller has to do for command `instr`.
pub open spec fn action_of(instr: SimInstruction) -> AiAction {
    match instr {
        SimInstruction::FrontCamFrame => AiAction::CaptureFrame(Camera::Front),
        SimInstruction::RearCamFrame => AiAction::CaptureFrame(Camera::Rear),
        SimInstruction::DumpCans(n) => AiAction::DumpCans(n),
        _ => AiAction::Idle,
    }
}

/// The brush after command `instr`.
pub open spec fn brush_after(brush_on: bool, instr: SimInstruction) -> bool {
    match instr {
        SimInstruction::BrushOn => true,
        SimInstruction::BrushOff | SimInstruction::StopAll => false,
        _ => brush_on,
    }
}

/// The scheduler after command `instr`: a motion command starts executing.
pub open spec fn handler_after(h: HandlerView, instr: SimInstruction) -> HandlerView {
    match expansion(instr) {
        Some(p) => HandlerView { pending: p, state: HandlerState::Executing },
        None => h,
    }
}

/// The controller state after a reset, whatever it was before: the schedule
/// is cleared and marked done.
pub open spec fn control_reset_view(v: ControlView) -> ControlView {
    ControlView { handler: reset_view(v.handler), ..v }
}

/// The decisions of the simulated robot: it reads commands from the shared
/// region, schedules motion, keeps the brush state, and hands the channel
/// back when a command is done.
pub struct ArenitoControl {
    instruction_handler: InstructionHandler,
    control_mode: ControlMode,
    brush_on: bool,
}

impl View for ArenitoControl {
    type V = ControlView;

    closed spec fn view(&self) -> ControlView {
        ControlView {
            handler: self.instruction_handler@,
            mode: self.control_mode,
            brush_on: self.brush_on,
        }
    }
}

impl ArenitoControl {
    /// Driven by the controlling process, brush off, nothing scheduled.
    pub fn new() -> (r: Self)
        ensures
            r@.handler.pending.len() == 0,
            r@.handler.state == HandlerState::Waiting,
            r@.mode == ControlMode::AI,
            !r@.brush_on,
    {
        ArenitoControl {
            instruction_handler: InstructionHandler::new(),
            control_mode: ControlMode::AI,
            brush_on: false,
        }
    }

    pub fn control_mode(&self) -> (r: ControlMode)
        ensures
            r == self@.mode,
    {
        self.control_mode
    }

    pub fn brush_on(&self) -> (r: bool)
        ensures
            r == self@.brush_on,
    {
        self.brush_on
    }

    pub fn handler_state(&self) -> (r: HandlerState)
        ensures
            r == self@.handler.state,
    {
        self.instruction_handler.state()
    }

    /// Whether a new motion command may be given.
    pub fn available(&self) -> (r: bool)
        ensures
            r == (self@.handler.state != HandlerState::Executing),
    {
        self.instruction_handler.available()
    }

    /// Hands driving from the keyboard to the controlling process or back.
    pub fn toggle_control_mode(&mut self)
        ensures
            final(self)@ == (ControlView {
                mode: if old(self)@.mode == ControlMode::AI {
                    ControlMode::Manual
                } else {
                    ControlMode::AI
                },
                ..old(self)@
            }),
    {
        self.control_mode = match self.control_mode {
            ControlMode::AI => ControlMode::Manual,
            ControlMode::Manual => ControlMode::AI,
        };
    }

    /// A motion command from the keyboard: taken only in manual mode, when
    /// no other command is executing; returns whether it was taken.
    pub fn manual_instruction(&mut self, instr: SimInstruction) -> (r: bool)
        requires
            expansion(instr).is_some(),
        ensures
            r == (old(self)@.mode == ControlMode::Manual && old(self)@.handler.state
                != HandlerState::Executing),
            final(self)@ == (if r {
                ControlView { handler: handler_after(old(self)@.handler, instr), ..old(self)@ }
            } else {
                old(self)@
            }),
    {
        if self.control_mode == ControlMode::Manual && self.instruction_handler.available() {
            self.instruction_handler.set(instr);
            true
        } else {
            false
        }
    }

    /// One step of the protocol with the controlling process, in AI mode.
    ///
    /// When the schedule is done, the channel is handed back (if the
    /// simulation holds it) and the controller waits for a command. While
    /// waiting, the command posted in `mem` is taken up: captures and can
    /// dumps are returned for the caller to carry out, the sensor report is
    /// built from `raw_reads` and written at once, the brush is switched, and
    /// motion commands are scheduled. While executing, or in manual mode,
    /// nothing happens. The control byte is written only while the
    /// simulation holds the channel.
    pub fn ai_step(&mut self, aisim: &AISimMem, mem: &mut [u8], raw_reads: &Vec<u8>) -> (r:
        AiAction)
        requires
            old(mem)@.len() >= 2 + AISimMem::MAX_PROXIMITY_SENSOR_COUNT,
            raw_reads@.len() == AISimMem::MAX_PROXIMITY_SENSOR_COUNT,
        ensures
            old(self)@.mode == ControlMode::Manual || old(self)@.handler.state
                == HandlerState::Executing ==> final(self)@ == old(self)@ && final(mem)@ == old(
                mem,
            )@ && r == AiAction::Idle,
            old(self)@.mode == ControlMode::AI && old(self)@.handler.state == HandlerState::Done
                ==> final(self)@ == (ControlView {
                handler: HandlerView { state: HandlerState::Waiting, ..old(self)@.handler },
                ..old(self)@
            }) && final(mem)@ == (if sim_holds(old(mem)@[0]) {
                old(mem)@.update(0, AISimMem::SIM_AKNOWLEDGE_INSTRUCTION)
            } else {
                old(mem)@
            }) && r == AiAction::Idle,
            old(self)@.mode == ControlMode::AI && old(self)@.handler.state
                == HandlerState::Waiting ==> match decode(old(mem)@[0], old(mem)@[1]) {
                None => final(self)@ == old(self)@ && final(mem)@ == old(mem)@ && r
                    == AiAction::Idle,
                Some(instr) => final(self)@ == (ControlView {
                    handler: handler_after(old(self)@.handler, instr),
                    mode: old(self)@.mode,
                    brush_on: brush_after(old(self)@.brush_on, instr),
                }) && final(mem)@ == reply(old(mem)@, instr, raw_reads@) && r == action_of(instr),
            },
            !sim_holds(old(mem)@[0]) ==> final(mem)@ == old(mem)@,
    {
        if self.control_mode == ControlMode::Manual {
            return AiAction::Idle;
        }
        match self.instruction_handler.state() {
            HandlerState::Done => {
                if sim_holds_byte(mem[0]) {
                    aisim.confirm_instruction(mem);
                }
                self.instruction_handler.wait();
                AiAction::Idle
            },
            HandlerState::Waiting => {
                match aisim.get_instruction(mem) {
                    None => AiAction::Idle,
                    Some(instr) => match instr {
                        SimInstruction::FrontCamFrame => {
                            aisim.start_frame_export(mem);
                            AiAction::CaptureFrame(Camera::Front)
                        },
                        SimInstruction::RearCamFrame => {
                            aisim.start_frame_export(mem);
                            AiAction::CaptureFrame(Camera::Rear)
                        },
                        SimInstruction::ProxSensorReads => {
                            let report = proximity_report(raw_reads);
                            aisim.export_sensor_reads(mem, &report);
                            AiAction::Idle
                        },
                        SimInstruction::DumpCans(n) => {
                            aisim.confirm_instruction(mem);
                            AiAction::DumpCans(n)
                        },
                        SimInstruction::BrushOn => {
                            self.brush_on = true;
                            aisim.confirm_instruction(mem);
                            AiAction::Idle
                        },
                        SimInstruction::BrushOff | SimInstruction::StopAll => {
                            self.brush_on = false;
                            aisim.confirm_instruction(mem);
                            AiAction::Idle
                        },
                        other => {
                            self.instruction_handler.set(other);
                            AiAction::Idle
                        },
                    },
                }
            },
            HandlerState::Executing => AiAction::Idle,
        }
    }

    /// A key press: Space hands driving over, R resets, and W, S, A, D give
    /// a motion command in manual mode when no other command is executing.
    pub fn keyboard_control(&mut self, key: Key)
        ensures
            key == Key::Space ==> final(self)@ == (ControlView {
                mode: if old(self)@.mode == ControlMode::AI {
                    ControlMode::Manual
                } else {
                    ControlMode::AI
                },
                ..old(self)@
            }),
            key == Key::R ==> final(self)@ == control_reset_view(old(self)@),
            key_instruction(key) matches Some(instr) ==> final(self)@ == (if old(self)@.mode
                == ControlMode::Manual && old(self)@.handler.state != HandlerState::Executing {
                ControlView { handler: handler_after(old(self)@.handler, instr), ..old(self)@ }
            } else {
                old(self)@
            }),
    {
        match key {
            Key::Space => self.toggle_control_mode(),
            Key::R => self.reset(),
            Key::W => {
                self.manual_instruction(SimInstruction::MoveForward);
            },
            Key::S => {
                self.manual_instruction(SimInstruction::MoveBack);
            },
            Key::A => {
                self.manual_instruction(SimInstruction::MoveLeft);
            },
            Key::D => {
                self.manual_instruction(SimInstruction::MoveRight);
            },
        }
    }

    /// Clears the schedule and marks it done.
    pub fn reset(&mut self)
        ensures
            final(self)@ == control_reset_view(old(self)@),
    {
        self.instruction_handler.reset();
    }

    /// Runs the schedule for `delta_ms` milliseconds; returns the base
    /// instructions that ran, each with the time it ran for.
    pub fn update(&mut self, delta_ms: u64) -> (r: Vec<Segment>)
        ensures
            r@ == run(old(self)@.handler.pending, delta_ms).0,
            final(self)@.handler.pending == run(old(self)@.handler.pending, delta_ms).1,
            final(self)@.handler.state == (if old(self)@.handler.pending.len() > 0
                && final(self)@.handler.pending.len() == 0 {
                HandlerState::Done
            } else {
                old(self)@.handler.state
            }),
            final(self)@.mode == old(self)@.mode,
            final(self)@.brush_on == old(self)@.brush_on,
    {
        self.instruction_handler.advance(delta_ms)
    }
}


/// Resetting the controller twice in a row leaves it as resetting it once.
pub proof fn lemma_control_reset_idempotent(v: ControlView)
    ensures
        control_reset_view(control_reset_view(v)) == control_reset_view(v),
{
}

} // verus!
