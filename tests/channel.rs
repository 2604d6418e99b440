use arenito_sim::channel::{AISimAddr, AISimMem};
use arenito_sim::instruction::{
    from_movement_code, movement_code, SimInstruction, BRUSH_OFF, BRUSH_ON, MOV_BACK, MOV_FORWARD,
    MOV_LEFT, MOV_LONG_RIGHT, MOV_RIGHT, STOP_ALL,
};

#[test]
fn test_aisimaddr_set() {
    let mut buf: Vec<u8> = vec![0];
    let ptr = AISimAddr::new(0);
    ptr.set(&mut buf, 45);

    assert_eq!(buf[0], 45);
}

#[test]
fn test_aisimaddr_get() {
    let buf: Vec<u8> = vec![103];
    let ptr = AISimAddr::new(0);

    assert_eq!(ptr.get(&buf), 103);
}

#[test]
fn test_get_instruction_frame_request() {
    let buf: Vec<u8> = vec![AISimMem::AI_FRONT_CAM_REQUEST, 0];
    let aisim = AISimMem::new();

    assert_eq!(Some(SimInstruction::FrontCamFrame), aisim.get_instruction(&buf));
}

#[test]
fn test_get_instruction_frame_wait() {
    let buf: Vec<u8> = vec![AISimMem::SIM_SCAN_WAIT, 0];
    let aisim = AISimMem::new();

    assert_eq!(None, aisim.get_instruction(&buf));
}

#[test]
fn test_get_instruction_move_instruction_forward() {
    let buf: Vec<u8> = vec![AISimMem::AI_MOVE_INSTRUCTION, MOV_FORWARD];
    let aisim = AISimMem::new();

    assert_eq!(Some(SimInstruction::MoveForward), aisim.get_instruction(&buf));
}

#[test]
fn test_get_instruction_move_instruction_left() {
    let buf: Vec<u8> = vec![AISimMem::AI_MOVE_INSTRUCTION, MOV_LEFT];
    let aisim = AISimMem::new();

    assert_eq!(Some(SimInstruction::MoveLeft), aisim.get_instruction(&buf));
}

#[test]
fn test_get_instruction_move_instruction_right() {
    let buf: Vec<u8> = vec![AISimMem::AI_MOVE_INSTRUCTION, MOV_RIGHT];
    let aisim = AISimMem::new();

    assert_eq!(Some(SimInstruction::MoveRight), aisim.get_instruction(&buf));
}

#[test]
fn test_get_instruction_move_instruction_other_value_is_none() {
    let buf: Vec<u8> = vec![AISimMem::AI_MOVE_INSTRUCTION, 45];
    let aisim = AISimMem::new();

    assert_eq!(None, aisim.get_instruction(&buf));
}

#[test]
fn test_get_instruction_aknowledge_instruction() {
    let buf: Vec<u8> = vec![AISimMem::SIM_AKNOWLEDGE_INSTRUCTION, 0];
    let aisim = AISimMem::new();

    assert_eq!(None, aisim.get_instruction(&buf));
}

#[test]
fn test_confirm_instruction() {
    let mut buf: Vec<u8> = vec![100, 101, 102, 103];
    let aisim = AISimMem::new();

    aisim.confirm_instruction(&mut buf);
    assert_eq!(buf[0], AISimMem::SIM_AKNOWLEDGE_INSTRUCTION);
    assert_eq!(&buf[1..], &[101, 102, 103]);
}

#[test]
fn movement_table_reads_back_every_code() {
    let table = [
        (b'a', SimInstruction::MoveForward),
        (b'i', SimInstruction::MoveLeft),
        (b'd', SimInstruction::MoveRight),
        (b'r', SimInstruction::MoveBack),
        (b'D', SimInstruction::MoveLongRight),
        (b'S', SimInstruction::StopAll),
        (b'P', SimInstruction::BrushOn),
        (b'p', SimInstruction::BrushOff),
    ];
    let aisim = AISimMem::new();
    for (code, instr) in table {
        let mut buf: Vec<u8> = vec![AISimMem::SIM_AKNOWLEDGE_INSTRUCTION, 0];
        aisim.post_movement(&mut buf, code);
        assert_eq!(buf, vec![AISimMem::AI_MOVE_INSTRUCTION, code]);
        assert_eq!(aisim.get_instruction(&buf), Some(instr));
        assert_eq!(movement_code(instr), Some(code));
        assert_eq!(from_movement_code(code), Some(instr));
    }
}

#[test]
fn unmapped_movement_bytes_read_as_nothing() {
    let aisim = AISimMem::new();
    let known = [MOV_FORWARD, MOV_LEFT, MOV_RIGHT, MOV_BACK, MOV_LONG_RIGHT, STOP_ALL, BRUSH_ON, BRUSH_OFF];
    for code in 0..=255u8 {
        let mut buf: Vec<u8> = vec![0, 0];
        aisim.post_movement(&mut buf, code);
        let read = aisim.get_instruction(&buf);
        assert_eq!(read.is_some(), known.contains(&code));
    }
}

#[test]
fn commands_without_movement_code() {
    assert_eq!(movement_code(SimInstruction::Evade), None);
    assert_eq!(movement_code(SimInstruction::FrontCamFrame), None);
    assert_eq!(movement_code(SimInstruction::DumpCans(2)), None);
}

#[test]
fn control_requests_decode() {
    let aisim = AISimMem::new();
    assert_eq!(
        aisim.get_instruction(&[AISimMem::AI_REAR_CAM_REQUEST, 9]),
        Some(SimInstruction::RearCamFrame)
    );
    assert_eq!(
        aisim.get_instruction(&[AISimMem::AI_PROX_SENSOR_READ_REQUEST, 9]),
        Some(SimInstruction::ProxSensorReads)
    );
    assert_eq!(
        aisim.get_instruction(&[AISimMem::AI_DUMP_CANS, 3]),
        Some(SimInstruction::DumpCans(3))
    );
    assert_eq!(aisim.get_instruction(&[0, b'a']), None);
    assert_eq!(aisim.get_instruction(&[200, b'a']), None);
}

#[test]
fn sensor_reads_are_counted_then_acknowledged() {
    let aisim = AISimMem::new();
    let mut buf: Vec<u8> = vec![AISimMem::AI_PROX_SENSOR_READ_REQUEST, 0, 0, 0, 0, 9];
    aisim.export_sensor_reads(&mut buf, &vec![11, 22, 33]);
    assert_eq!(buf, vec![AISimMem::SIM_AKNOWLEDGE_INSTRUCTION, 3, 11, 22, 33, 9]);
}

#[test]
fn frame_export_waits_then_writes_and_acknowledges() {
    let aisim = AISimMem::new();
    let mut buf: Vec<u8> = vec![0; AISimMem::REQUIRED_MEMORY + 1];
    buf[0] = AISimMem::AI_FRONT_CAM_REQUEST;
    buf[AISimMem::REQUIRED_MEMORY] = 77;
    aisim.start_frame_export(&mut buf);
    assert_eq!(buf[0], AISimMem::SIM_SCAN_WAIT);
    assert_eq!(aisim.get_instruction(&buf), None);

    let img: Vec<u8> = (0..AISimMem::IMG_SIZE).map(|i| (i % 251) as u8).collect();
    aisim.export_frame(&mut buf, &img);
    assert_eq!(buf[0], AISimMem::SIM_AKNOWLEDGE_INSTRUCTION);
    assert_eq!(&buf[1..AISimMem::REQUIRED_MEMORY], &img[..]);
    assert_eq!(buf[AISimMem::REQUIRED_MEMORY], 77);
}

#[test]
fn region_layout_sizes() {
    assert_eq!(AISimMem::IMG_SIZE, 512 * 512 * 3);
    assert_eq!(AISimMem::REQUIRED_MEMORY, AISimMem::SYNC_SIZE + AISimMem::IMG_SIZE);
    assert_eq!(AISimMem::MMAP_FILENAME, "file.mmap");
}

#[test]
fn address_write_and_next() {
    let mut buf: Vec<u8> = vec![1, 2, 3, 4, 5];
    let addr = AISimAddr::new(1).next(2);
    assert_eq!(addr.offset, 3);
    addr.write(&mut buf, &vec![8, 9]);
    assert_eq!(buf, vec![1, 2, 3, 8, 9]);
    AISimAddr::new(0).write(&mut buf, &vec![]);
    assert_eq!(buf, vec![1, 2, 3, 8, 9]);
}
