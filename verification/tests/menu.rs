use m27q_kvm::{cmd_queue_from_args, Args, KvmInput, MenuEntry, tray_menu, MENU_SEPARATOR, TRAY_TITLE};

#[test]
fn tray_menu_lines() {
    let trigger = Args { switch_back_input: None, run_trigger: true };
    let to = |input| Args { switch_back_input: Some(input), run_trigger: true };
    assert_eq!(
        tray_menu(),
        vec![
            MenuEntry::Action { label: "KVM Switch", args: trigger },
            MenuEntry::Label { label: "------------" },
            MenuEntry::Action { label: "HDMI1", args: to(KvmInput::Hdmi1) },
            MenuEntry::Action { label: "HDMI2", args: to(KvmInput::Hdmi2) },
            MenuEntry::Action { label: "DP", args: to(KvmInput::DisplayPort) },
            MenuEntry::Label { label: "------------" },
            MenuEntry::Quit { label: "Quit" },
        ]
    );
}

#[test]
fn tray_texts() {
    assert_eq!(TRAY_TITLE, "M27Q");
    assert_eq!(MENU_SEPARATOR, "------------");
}

#[test]
fn every_action_of_the_menu_ends_in_a_trigger() {
    let mut actions = 0;
    for entry in tray_menu() {
        if let MenuEntry::Action { args, .. } = entry {
            let cmds = cmd_queue_from_args(&args);
            let last = cmds.last().unwrap();
            assert_eq!(last.payload(), &[0x6e, 0x51, 0x84, 0x03, 0xe0, 0x69, 0x01]);
            assert_eq!(cmds.len(), if args.switch_back_input.is_some() { 2 } else { 1 });
            actions += 1;
        }
    }
    assert_eq!(actions, 4);
}
