use vstd::prelude::*;

verus! {

/// A command from the controlling process, decoded from the shared region.
#[derive(PartialEq, Eq, Structural, Clone, Copy, Debug)]
pub enum SimInstruction {
    MoveBack,
    MoveForward,
    MoveLeft,
    MoveRight,
    MoveLongRight,
    Evade,
    FrontCamFrame,
    RearCamFrame,
    ProxSensorReads,
    DumpCans(u8),
    BrushOn,
    BrushOff,
    StopAll,
}

/// Payload byte of a forward step (`'a'`).
pub const MOV_FORWARD: u8 = 97;
/// Payload byte of a left turn (`'i'`).
pub const MOV_LEFT: u8 = 105;
/// Payload byte of a right turn (`'d'`).
pub const MOV_RIGHT: u8 = 100;
/// Payload byte of a step back (`'r'`).
pub const MOV_BACK: u8 = 114;
/// Payload byte of a long right turn (`'D'`).
pub const MOV_LONG_RIGHT: u8 = 68;
/// Payload byte that stops everything (`'S'`).
pub const STOP_ALL: u8 = 83;
/// Payload byte that switches the brush on (`'P'`).
pub const BRUSH_ON: u8 = 80;
/// Payload byte that switches the brush off (`'p'`).
pub const BRUSH_OFF: u8 = 112;

/// The movement table: the command that a movement payload byte stands for.
pub open spec fn movement_instruction(code: u8) -> Option<SimInstruction> {
    if code == MOV_FORWARD {
        Some(SimInstruction::MoveForward)
    } else if code == MOV_LEFT {
        Some(SimInstruction::MoveLeft)
    } else if code == MOV_RIGHT {
        Some(SimInstruction::MoveRight)
    } else if code == MOV_BACK {
        Some(SimInstruction::MoveBack)
    } else if code == MOV_LONG_RIGHT {
        Some(SimInstruction::MoveLongRight)
    } else if code == STOP_ALL {
        Some(SimInstruction::StopAll)
    } else if code == BRUSH_ON {
        Some(SimInstruction::BrushOn)
    } else if code == BRUSH_OFF {
        Some(SimInstruction::BrushOff)
    } else {
        None
    }
}

/// The movement table read the other way: the payload byte of a command,
/// for the commands that travel as a movement byte.
pub open spec fn movement_code_of(instr: SimInstruction) -> Option<u8> {
    match instr {
        SimInstruction::MoveForward => Some(MOV_FORWARD),
        SimInstruction::MoveLeft => Some(MOV_LEFT),
        SimInstruction::MoveRight => Some(MOV_RIGHT),
        SimInstruction::MoveBack => Some(MOV_BACK),
        SimInstruction::MoveLongRight => Some(MOV_LONG_RIGHT),
        SimInstruction::StopAll => Some(STOP_ALL),
        SimInstruction::BrushOn => Some(BRUSH_ON),
        SimInstruction::BrushOff => Some(BRUSH_OFF),
        _ => None,
    }
}

/// Decodes a movement payload byte; `None` for a byte outside the table.
pub fn from_movement_code(code: u8) -> (r: Option<SimInstruction>)
    ensures
        r == movement_instruction(code),
{
    if code == MOV_FORWARD {
        Some(SimInstruction::MoveForward)
    } else if code == MOV_LEFT {
        Some(SimInstruction::MoveLeft)
    } else if code == MOV_RIGHT {
        Some(SimInstruction::MoveRight)
    } else if code == MOV_BACK {
        Some(SimInstruction::MoveBack)
    } else if code == MOV_LONG_RIGHT {
        Some(SimInstruction::MoveLongRight)
    } else if code == STOP_ALL {
        Some(SimInstruction::StopAll)
    } else if code == BRUSH_ON {
        Some(SimInstruction::BrushOn)
    } else if code == BRUSH_OFF {
        Some(SimInstruction::BrushOff)
    } else {
        None
    }
}

/// The payload byte that carries `instr` as a movement instruction, if it has one.
pub fn movement_code(instr: SimInstruction) -> (r: Option<u8>)
    ensures
        r == movement_code_of(instr),
{
    match instr {
        SimInstruction::MoveForward => Some(MOV_FORWARD),
        SimInstruction::MoveLeft => Some(MOV_LEFT),
        SimInstruction::MoveRight => Some(MOV_RIGHT),
        SimInstruction::MoveBack => Some(MOV_BACK),
        SimInstruction::MoveLongRight => Some(MOV_LONG_RIGHT),
        SimInstruction::StopAll => Some(STOP_ALL),
        SimInstruction::BrushOn => Some(BRUSH_ON),
        SimInstruction::BrushOff => Some(BRUSH_OFF),
        _ => None,
    }
}

/// The movement table is one-to-one: a byte decodes to a command exactly when
/// that command encodes to the byte.
pub proof fn lemma_movement_table_bijective(code: u8, instr: SimInstruction)
    ensures
        movement_instruction(code) == Some(instr) <==> movement_code_of(instr) == Some(code),
{
}

} // verus!
