use m27q_kvm::{InvalidInputToken, KvmInput};

#[test]
fn parses_the_three_names() {
    assert_eq!(KvmInput::from_str("HDMI1"), Ok(KvmInput::Hdmi1));
    assert_eq!(KvmInput::from_str("HDMI2"), Ok(KvmInput::Hdmi2));
    assert_eq!(KvmInput::from_str("DP"), Ok(KvmInput::DisplayPort));
}

#[test]
fn rejects_lower_case() {
    assert_eq!(KvmInput::from_str("hdmi1"), Err(InvalidInputToken));
    assert_eq!(KvmInput::from_str("Hdmi2"), Err(InvalidInputToken));
    assert_eq!(KvmInput::from_str("dp"), Err(InvalidInputToken));
}

#[test]
fn rejects_unknown_names() {
    assert_eq!(KvmInput::from_str("VGA"), Err(InvalidInputToken));
    assert_eq!(KvmInput::from_str("HDMI3"), Err(InvalidInputToken));
    assert_eq!(KvmInput::from_str("DisplayPort"), Err(InvalidInputToken));
    assert_eq!(KvmInput::from_str("USB-C"), Err(InvalidInputToken));
}

#[test]
fn rejects_the_empty_text() {
    assert_eq!(KvmInput::from_str(""), Err(InvalidInputToken));
}

#[test]
fn rejects_names_with_anything_around_them() {
    assert_eq!(KvmInput::from_str(" HDMI1"), Err(InvalidInputToken));
    assert_eq!(KvmInput::from_str("HDMI1 "), Err(InvalidInputToken));
    assert_eq!(KvmInput::from_str("DP\n"), Err(InvalidInputToken));
    assert_eq!(KvmInput::from_str("HDMI"), Err(InvalidInputToken));
    assert_eq!(KvmInput::from_str("HDMI12"), Err(InvalidInputToken));
    assert_eq!(KvmInput::from_str("D"), Err(InvalidInputToken));
    assert_eq!(KvmInput::from_str("DPP"), Err(InvalidInputToken));
}

#[test]
fn rejects_look_alikes_outside_ascii() {
    assert_eq!(KvmInput::from_str("HDMI\u{0661}"), Err(InvalidInputToken));
    assert_eq!(KvmInput::from_str("\u{ff28}DMI1"), Err(InvalidInputToken));
    assert_eq!(KvmInput::from_str("D\u{0420}"), Err(InvalidInputToken));
    assert_eq!(KvmInput::from_str("\u{1F5A5}"), Err(InvalidInputToken));
}

#[test]
fn rejects_a_long_text_that_starts_with_a_name() {
    let mut text = String::from("HDMI1");
    for _ in 0..1000 {
        text.push('1');
    }
    assert_eq!(KvmInput::from_str(&text), Err(InvalidInputToken));
}

#[test]
fn names_are_what_users_write() {
    assert_eq!(KvmInput::Hdmi1.name(), "HDMI1");
    assert_eq!(KvmInput::Hdmi2.name(), "HDMI2");
    assert_eq!(KvmInput::DisplayPort.name(), "DP");
}

#[test]
fn reading_a_name_gives_the_input_back() {
    for input in KvmInput::all() {
        assert_eq!(KvmInput::from_str(input.name()), Ok(input));
    }
}

#[test]
fn wire_codes() {
    assert_eq!(KvmInput::Hdmi1.code(), 0x00);
    assert_eq!(KvmInput::Hdmi2.code(), 0x01);
    assert_eq!(KvmInput::DisplayPort.code(), 0x02);
}

#[test]
fn all_inputs_in_code_order() {
    assert_eq!(
        KvmInput::all(),
        vec![KvmInput::Hdmi1, KvmInput::Hdmi2, KvmInput::DisplayPort]
    );
}

#[test]
fn invalid_token_message_lists_the_names() {
    let error = KvmInput::from_str("VGA").unwrap_err();
    assert_eq!(
        error.message(),
        "Invalid KVM input - valid inputs are HDMI1,HDMI2,DP"
    );
}
