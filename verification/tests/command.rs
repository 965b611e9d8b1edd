use m27q_kvm::command::{REQUEST, REQUEST_TYPE};
use m27q_kvm::{cmd_queue_from_args, Args, Command, KvmInput};

fn assert_envelope(command: &Command) {
    assert_eq!(command.rtype(), 0x40);
    assert_eq!(command.request(), 178);
    assert_eq!(command.value(), 0x0000);
    assert_eq!(command.index(), 0x0000);
}

#[test]
fn envelope_constants() {
    assert_eq!(REQUEST_TYPE, 0x40);
    assert_eq!(REQUEST, 0xB2);
}

#[test]
fn select_payload_for_hdmi1() {
    let command = Command::select_input(KvmInput::Hdmi1);
    assert_envelope(&command);
    assert_eq!(command.payload(), &[0x6e, 0x51, 0x84, 0x03, 0xe0, 0x6b, 0x00]);
}

#[test]
fn select_payload_for_hdmi2() {
    let command = Command::select_input(KvmInput::Hdmi2);
    assert_envelope(&command);
    assert_eq!(command.payload(), &[0x6e, 0x51, 0x84, 0x03, 0xe0, 0x6b, 0x01]);
}

#[test]
fn select_payload_for_display_port() {
    let command = Command::select_input(KvmInput::DisplayPort);
    assert_envelope(&command);
    assert_eq!(command.payload(), &[0x6e, 0x51, 0x84, 0x03, 0xe0, 0x6b, 0x02]);
}

#[test]
fn select_payload_ends_in_the_code_of_its_input() {
    for input in KvmInput::all() {
        let command = Command::select_input(input);
        let payload = command.payload();
        assert_eq!(payload.len(), 7);
        assert_eq!(&payload[..6], &[0x6e, 0x51, 0x84, 0x03, 0xe0, 0x6b]);
        assert_eq!(payload[6], input.code());
    }
}

#[test]
fn trigger_payload() {
    let command = Command::trigger();
    assert_envelope(&command);
    assert_eq!(command.payload(), &[0x6e, 0x51, 0x84, 0x03, 0xe0, 0x69, 0x01]);
}

#[test]
fn trigger_payload_is_the_same_every_time() {
    let first = Command::trigger();
    let _between = Command::select_input(KvmInput::Hdmi2);
    let second = Command::trigger();
    assert_eq!(first.payload(), second.payload());
}

#[test]
fn queue_with_select_and_trigger() {
    for input in KvmInput::all() {
        let cmds = cmd_queue_from_args(&Args { switch_back_input: Some(input), run_trigger: true });
        assert_eq!(cmds.len(), 2);
        assert_envelope(&cmds[0]);
        assert_envelope(&cmds[1]);
        assert_eq!(cmds[0].payload(), Command::select_input(input).payload());
        assert_eq!(cmds[0].payload()[6], input.code());
        assert_eq!(cmds[1].payload(), &[0x6e, 0x51, 0x84, 0x03, 0xe0, 0x69, 0x01]);
    }
}

#[test]
fn queue_with_trigger_only() {
    let cmds = cmd_queue_from_args(&Args { switch_back_input: None, run_trigger: true });
    assert_eq!(cmds.len(), 1);
    assert_envelope(&cmds[0]);
    assert_eq!(cmds[0].payload(), &[0x6e, 0x51, 0x84, 0x03, 0xe0, 0x69, 0x01]);
}

#[test]
fn queue_with_select_only() {
    let cmds = cmd_queue_from_args(&Args {
        switch_back_input: Some(KvmInput::DisplayPort),
        run_trigger: false,
    });
    assert_eq!(cmds.len(), 1);
    assert_envelope(&cmds[0]);
    assert_eq!(cmds[0].payload(), &[0x6e, 0x51, 0x84, 0x03, 0xe0, 0x6b, 0x02]);
}

#[test]
fn queue_with_neither_intent_is_empty() {
    let cmds = cmd_queue_from_args(&Args { switch_back_input: None, run_trigger: false });
    assert!(cmds.is_empty());
}
