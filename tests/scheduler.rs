use arenito_sim::instruction::SimInstruction;
use arenito_sim::scheduler::{base_instructions, BaseInstruction, HandlerState, InstructionHandler};

#[test]
fn new_handler_waits_with_nothing_scheduled() {
    let h = InstructionHandler::new();
    assert_eq!(h.state(), HandlerState::Waiting);
    assert!(h.available());
    assert_eq!(h.current(), None);
}

#[test]
fn motion_commands_expand_to_timed_steps() {
    assert_eq!(base_instructions(SimInstruction::MoveBack), vec![(BaseInstruction::Back, 100)]);
    assert_eq!(base_instructions(SimInstruction::MoveForward), vec![(BaseInstruction::Forward, 150)]);
    assert_eq!(base_instructions(SimInstruction::MoveLeft), vec![(BaseInstruction::Left, 50)]);
    assert_eq!(base_instructions(SimInstruction::MoveRight), vec![(BaseInstruction::Right, 50)]);
    assert_eq!(base_instructions(SimInstruction::MoveLongRight), vec![(BaseInstruction::Right, 1100)]);
    assert_eq!(
        base_instructions(SimInstruction::Evade),
        vec![(BaseInstruction::Back, 400), (BaseInstruction::Right, 800)]
    );
}

#[test]
fn set_starts_executing_the_first_step() {
    let mut h = InstructionHandler::new();
    h.set(SimInstruction::Evade);
    assert_eq!(h.state(), HandlerState::Executing);
    assert!(!h.available());
    assert_eq!(h.current(), Some((BaseInstruction::Back, 400)));
}

#[test]
fn advance_within_a_step() {
    let mut h = InstructionHandler::new();
    h.set(SimInstruction::MoveForward);
    assert_eq!(h.advance(16), vec![(BaseInstruction::Forward, 16)]);
    assert_eq!(h.current(), Some((BaseInstruction::Forward, 134)));
    assert_eq!(h.state(), HandlerState::Executing);
}

#[test]
fn advance_splits_a_tick_at_a_step_boundary() {
    let mut h = InstructionHandler::new();
    h.set(SimInstruction::Evade);
    assert_eq!(h.advance(390), vec![(BaseInstruction::Back, 390)]);
    assert_eq!(
        h.advance(30),
        vec![(BaseInstruction::Back, 10), (BaseInstruction::Right, 20)]
    );
    assert_eq!(h.current(), Some((BaseInstruction::Right, 780)));
}

#[test]
fn advance_past_every_step_is_done() {
    let mut h = InstructionHandler::new();
    h.set(SimInstruction::Evade);
    assert_eq!(
        h.advance(5000),
        vec![(BaseInstruction::Back, 400), (BaseInstruction::Right, 800)]
    );
    assert_eq!(h.current(), None);
    assert_eq!(h.state(), HandlerState::Done);
    assert!(h.available());
}

#[test]
fn advance_exactly_to_the_end_keeps_an_empty_step() {
    let mut h = InstructionHandler::new();
    h.set(SimInstruction::MoveLeft);
    assert_eq!(h.advance(50), vec![(BaseInstruction::Left, 50)]);
    assert_eq!(h.current(), Some((BaseInstruction::Left, 0)));
    assert_eq!(h.state(), HandlerState::Executing);
    assert_eq!(h.advance(16), vec![(BaseInstruction::Left, 0)]);
    assert_eq!(h.state(), HandlerState::Done);
}

#[test]
fn advance_with_nothing_scheduled_does_nothing() {
    let mut h = InstructionHandler::new();
    assert_eq!(h.advance(100), vec![]);
    assert_eq!(h.state(), HandlerState::Waiting);
}

#[test]
fn dispatch_takes_any_list() {
    let mut h = InstructionHandler::new();
    h.dispatch(vec![(BaseInstruction::Forward, 5), (BaseInstruction::Left, 5), (BaseInstruction::Back, 5)]);
    assert_eq!(
        h.advance(12),
        vec![(BaseInstruction::Forward, 5), (BaseInstruction::Left, 5), (BaseInstruction::Back, 2)]
    );
    assert_eq!(h.current(), Some((BaseInstruction::Back, 3)));
}

#[test]
fn next_moves_on_and_finishes() {
    let mut h = InstructionHandler::new();
    h.set(SimInstruction::Evade);
    h.advance(100);
    h.next();
    assert_eq!(h.current(), Some((BaseInstruction::Right, 800)));
    h.next();
    assert_eq!(h.current(), None);
    assert_eq!(h.state(), HandlerState::Done);
}

#[test]
fn state_transitions() {
    let mut h = InstructionHandler::new();
    h.done();
    assert_eq!(h.state(), HandlerState::Done);
    h.wait();
    assert_eq!(h.state(), HandlerState::Waiting);
    h.execute();
    assert_eq!(h.state(), HandlerState::Executing);
}

#[test]
fn reset_twice_is_reset_once() {
    let mut once = InstructionHandler::new();
    once.set(SimInstruction::Evade);
    once.advance(10);
    once.reset();
    let mut twice = InstructionHandler::new();
    twice.set(SimInstruction::Evade);
    twice.advance(10);
    twice.reset();
    twice.reset();
    assert_eq!(once.state(), HandlerState::Done);
    assert_eq!(once.current(), None);
    assert_eq!(twice.state(), once.state());
    assert_eq!(twice.current(), once.current());
}

#[test]
fn default_handler_is_a_new_one() {
    let h = InstructionHandler::default();
    assert_eq!(h.state(), HandlerState::Waiting);
    assert_eq!(h.current(), None);
}
