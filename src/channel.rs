use vstd::prelude::*;
use crate::instruction::{SimInstruction, movement_instruction, movement_code_of, from_movement_code};

verus! {

/// `s` with `bytes` written over it from index `at` on.
pub open spec fn put(s: Seq<u8>, at: int, bytes: Seq<u8>) -> Seq<u8> {
    s.subrange(0, at) + bytes + s.subrange(at + bytes.len(), s.len() as int)
}

/// A fixed position in the shared region.
#[derive(Clone, Copy, Debug, PartialEq, Eq, Structural)]
pub struct AISimAddr {
    pub offset: usize,
}

impl AISimAddr {
    pub fn new(offset: usize) -> (r: Self)
        ensures
            r.offset == offset,
    {
        AISimAddr { offset }
    }

    /// Writes `val` at this position.
    pub fn set(&self, mem: &mut [u8], val: u8)
        requires
            self.offset < old(mem)@.len(),
        ensures
            final(mem)@ == old(mem)@.update(self.offset as int, val),
    {
        mem[self.offset] = val;
    }

    /// Writes `bytes` from this position on.
    pub fn write(&self, mem: &mut [u8], bytes: &Vec<u8>)
        requires
            self.offset + bytes@.len() <= old(mem)@.len(),
        ensures
            final(mem)@ == put(old(mem)@, self.offset as int, bytes@),
    {
        let off = self.offset;
        let len = mem.len();
        let mut i: usize = 0;
        while i < bytes.len()
            invariant
                off + bytes@.len() <= mem@.len(),
                i <= bytes@.len(),
                mem@.len() == old(mem)@.len(),
                mem@.len() == len,
                forall|j: int|
                    0 <= j < mem@.len() ==> mem@[j] == (if off <= j < off + i {
                        bytes@[j - off]
                    } else {
                        old(mem)@[j]
                    }),
            decreases bytes@.len() - i,
        {
            mem[off + i] = bytes[i];
            i = i + 1;
        }
        assert(mem@ =~= put(old(mem)@, off as int, bytes@));
    }

    /// The byte at this position.
    pub fn get(&self, mem: &[u8]) -> (r: u8)
        requires
            self.offset < mem@.len(),
        ensures
            r == mem@[self.offset as int],
    {
        mem[self.offset]
    }

    /// The position `count` bytes further on.
    pub fn next(&self, count: usize) -> (r: Self)
        requires
            self.offset + count <= usize::MAX,
        ensures
            r.offset == self.offset + count,
    {
        AISimAddr { offset: self.offset + count }
    }
}

/// The layout of the region shared with the controlling process.
///
/// Byte 0 is the control byte: its value says which process may write next
/// and what the payload holds. The payload starts at byte 1: a movement
/// byte, a can count, a sensor count followed by one byte per sensor, or the
/// raw RGB bytes of a camera frame. The bytes themselves are handed to each
/// call, so one layout serves a mapped file as well as a plain buffer.
#[derive(Clone, Copy, Debug)]
pub struct AISimMem {
    sync_byte: AISimAddr,
    memspace: AISimAddr,
}

/// The command posted by control byte `sync` with first payload byte `payload`.
pub open spec fn decode(sync: u8, payload: u8) -> Option<SimInstruction> {
    if sync == AISimMem::AI_FRONT_CAM_REQUEST {
        Some(SimInstruction::FrontCamFrame)
    } else if sync == AISimMem::AI_REAR_CAM_REQUEST {
        Some(SimInstruction::RearCamFrame)
    } else if sync == AISimMem::AI_PROX_SENSOR_READ_REQUEST {
        Some(SimInstruction::ProxSensorReads)
    } else if sync == AISimMem::AI_DUMP_CANS {
        Some(SimInstruction::DumpCans(payload))
    } else if sync == AISimMem::AI_MOVE_INSTRUCTION {
        movement_instruction(payload)
    } else {
        None
    }
}

/// The region after the controlling process posts movement byte `code`.
pub open spec fn posted_movement(mem: Seq<u8>, code: u8) -> Seq<u8> {
    mem.update(1, code).update(0, AISimMem::AI_MOVE_INSTRUCTION)
}

/// The region after `reads` are exported: count byte, one byte per sensor,
/// then the control byte set to acknowledge.
pub open spec fn exported_reads(mem: Seq<u8>, reads: Seq<u8>) -> Seq<u8> {
    put(mem, 1, seq![reads.len() as u8] + reads).update(0, AISimMem::SIM_AKNOWLEDGE_INSTRUCTION)
}

/// The region after a frame is exported: the image bytes in the payload,
/// then the control byte set to acknowledge.
pub open spec fn exported_frame(mem: Seq<u8>, img: Seq<u8>) -> Seq<u8> {
    put(mem, 1, img).update(0, AISimMem::SIM_AKNOWLEDGE_INSTRUCTION)
}

impl AISimMem {
    /// Control byte: the controlling process asks for a front camera frame.
    pub const AI_FRONT_CAM_REQUEST: u8 = 1;
    /// Control byte: the simulation is capturing a frame; the controlling
    /// process must not write.
    pub const SIM_SCAN_WAIT: u8 = 2;
    /// Control byte: the payload byte holds a movement instruction.
    pub const AI_MOVE_INSTRUCTION: u8 = 3;
    /// Control byte: the simulation is done; the controlling process may
    /// read the payload and post a new request.
    pub const SIM_AKNOWLEDGE_INSTRUCTION: u8 = 4;
    /// Control byte: the controlling process asks for the proximity readings.
    pub const AI_PROX_SENSOR_READ_REQUEST: u8 = 5;
    /// Control byte: the controlling process asks for a rear camera frame.
    pub const AI_REAR_CAM_REQUEST: u8 = 6;
    /// Control byte: the controlling process asks to dump as many cans as
    /// the payload byte says.
    pub const AI_DUMP_CANS: u8 = 7;
    /// Bytes used by the control byte.
    pub const SYNC_SIZE: usize = 1;
    /// Bytes of a camera frame: 512 by 512 pixels of three channels.
    pub const IMG_SIZE: usize = 786_432;
    /// How many proximity sensors a reading holds at most.
    pub const MAX_PROXIMITY_SENSOR_COUNT: usize = 7;
    /// Size of the whole shared region.
    pub const REQUIRED_MEMORY: usize = Self::SYNC_SIZE + Self::IMG_SIZE;
    /// Name of the file that backs the shared region.
    pub const MMAP_FILENAME: &'static str = "file.mmap";

    /// Control byte at offset 0, payload from offset 1 on.
    #[verifier::type_invariant]
    spec fn layout(&self) -> bool {
        self.sync_byte.offset == 0 && self.memspace.offset == Self::SYNC_SIZE
    }

    /// The layout: control byte first, payload right after it.
    pub fn new() -> (r: Self) {
        AISimMem { sync_byte: AISimAddr::new(0), memspace: AISimAddr::new(1) }
    }

    /// Sets the control byte.
    fn set_sync_flag(&self, mem: &mut [u8], flag: u8)
        requires
            old(mem)@.len() >= 1,
        ensures
            final(mem)@ == old(mem)@.update(0, flag),
    {
        proof {
            use_type_invariant(self);
        }
        self.sync_byte.set(mem, flag);
    }

    /// The command that the controlling process has posted, or `None` when
    /// the control byte posts none or the movement byte is not in the table.
    pub fn get_instruction(&self, mem: &[u8]) -> (r: Option<SimInstruction>)
        requires
            mem@.len() >= 2,
        ensures
            r == decode(mem@[0], mem@[1]),
    {
        proof {
            use_type_invariant(self);
        }
        let sync = self.sync_byte.get(mem);
        if sync == Self::AI_FRONT_CAM_REQUEST {
            Some(SimInstruction::FrontCamFrame)
        } else if sync == Self::AI_REAR_CAM_REQUEST {
            Some(SimInstruction::RearCamFrame)
        } else if sync == Self::AI_PROX_SENSOR_READ_REQUEST {
            Some(SimInstruction::ProxSensorReads)
        } else if sync == Self::AI_DUMP_CANS {
            Some(SimInstruction::DumpCans(self.memspace.get(mem)))
        } else if sync == Self::AI_MOVE_INSTRUCTION {
            from_movement_code(self.memspace.get(mem))
        } else {
            None
        }
    }

    /// Hands the region back to the controlling process: sets the control
    /// byte to acknowledge.
    pub fn confirm_instruction(&self, mem: &mut [u8])
        requires
            old(mem)@.len() >= 1,
        ensures
            final(mem)@ == old(mem)@.update(0, Self::SIM_AKNOWLEDGE_INSTRUCTION),
    {
        self.set_sync_flag(mem, Self::SIM_AKNOWLEDGE_INSTRUCTION);
    }

    /// Writes the sensor count and one byte per sensor into the payload,
    /// then acknowledges.
    pub fn export_sensor_reads(&self, mem: &mut [u8], sensor_reads: &Vec<u8>)
        requires
            sensor_reads@.len() <= u8::MAX,
            2 + sensor_reads@.len() <= old(mem)@.len(),
        ensures
            final(mem)@ == exported_reads(old(mem)@, sensor_reads@),
    {
        proof {
            use_type_invariant(self);
        }
        let ghost before = mem@;
        self.memspace.set(mem, sensor_reads.len() as u8);
        self.memspace.next(1).write(mem, sensor_reads);
        self.confirm_instruction(mem);
        assert(mem@ =~= exported_reads(before, sensor_reads@));
    }

    /// Marks a frame capture as pending: sets the control byte to wait, so
    /// that no new request comes while the capture runs.
    pub fn start_frame_export(&self, mem: &mut [u8])
        requires
            old(mem)@.len() >= 1,
        ensures
            final(mem)@ == old(mem)@.update(0, Self::SIM_SCAN_WAIT),
    {
        self.set_sync_flag(mem, Self::SIM_SCAN_WAIT);
    }

    /// Writes a captured frame into the payload, then acknowledges.
    pub fn export_frame(&self, mem: &mut [u8], img: &Vec<u8>)
        requires
            img@.len() == Self::IMG_SIZE,
            old(mem)@.len() >= Self::REQUIRED_MEMORY,
        ensures
            final(mem)@ == exported_frame(old(mem)@, img@),
    {
        proof {
            use_type_invariant(self);
        }
        self.memspace.write(mem, img);
        self.confirm_instruction(mem);
    }

    /// What the controlling process does to post a movement: the movement
    /// byte first, then the control byte.
    pub fn post_movement(&self, mem: &mut [u8], code: u8)
        requires
            old(mem)@.len() >= 2,
        ensures
            final(mem)@ == posted_movement(old(mem)@, code),
    {
        proof {
            use_type_invariant(self);
        }
        self.memspace.set(mem, code);
        self.set_sync_flag(mem, Self::AI_MOVE_INSTRUCTION);
    }
}


/// Posting a movement byte and then reading the channel gives the command
/// that the movement table pairs with that byte, and no command for a byte
/// outside the table.
pub proof fn lemma_posted_movement_reads_back(mem: Seq<u8>, code: u8, instr: SimInstruction)
    requires
        mem.len() >= 2,
    ensures
        decode(posted_movement(mem, code)[0], posted_movement(mem, code)[1])
            == movement_instruction(code),
        movement_code_of(instr) == Some(code) ==> decode(
            posted_movement(mem, code)[0],
            posted_movement(mem, code)[1],
        ) == Some(instr),
{
}

} // verus!
