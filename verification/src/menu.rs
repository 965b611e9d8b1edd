//! The entries of the tray menu: one to switch, one for each input, and one
//! to quit. Activating an entry that carries intents performs one run of its
//! own with the queue that [`cmd_queue_from_args`](crate::command::cmd_queue_from_args)
//! builds from them.

use vstd::prelude::*;

use crate::command::Args;
use crate::input::KvmInput;

verus! {

/// The title of the tray icon.
pub const TRAY_TITLE: &'static str = "M27Q";

/// The text of the lines that part the groups of the menu.
pub const MENU_SEPARATOR: &'static str = "------------";

/// One line of the tray menu.
#[derive(Copy, Clone, Debug, PartialEq, Eq)]
pub enum MenuEntry {
    /// A line to select: it performs one run with the intents `args`.
    Action { label: &'static str, args: Args },
    /// A line of text that cannot be selected.
    Label { label: &'static str },
    /// The line that ends the program.
    Quit { label: &'static str },
}

/// Whether `entry` is a line to select that reads `label` and carries `args`.
pub open spec fn is_action(entry: MenuEntry, label: Seq<char>, args: Args) -> bool {
    entry matches MenuEntry::Action { label: l, args: a } && l@ == label && a == args
}

/// Whether `entry` is a line of text that reads `label`.
pub open spec fn is_label(entry: MenuEntry, label: Seq<char>) -> bool {
    entry matches MenuEntry::Label { label: l } && l@ == label
}

/// Whether `entry` is the line that ends the program and reads `label`.
pub open spec fn is_quit(entry: MenuEntry, label: Seq<char>) -> bool {
    entry matches MenuEntry::Quit { label: l } && l@ == label
}

/// The intents of the menu line for `input`: store the input, then switch.
pub open spec fn switch_to(input: KvmInput) -> Args {
    Args { switch_back_input: Some(input), run_trigger: true }
}

/// The intents of the first menu line: switch, with no input stored before.
pub open spec fn switch_only() -> Args {
    Args { switch_back_input: None, run_trigger: true }
}

/// The lines of the tray menu, top to bottom: the plain switch, then one
/// line for each input under its name, then the line that quits.
pub fn tray_menu() -> (menu: Vec<MenuEntry>)
    ensures
        menu@.len() == 7,
        is_action(menu@[0], "KVM Switch"@, switch_only()),
        is_label(menu@[1], MENU_SEPARATOR@),
        is_action(menu@[2], KvmInput::Hdmi1.token(), switch_to(KvmInput::Hdmi1)),
        is_action(menu@[3], KvmInput::Hdmi2.token(), switch_to(KvmInput::Hdmi2)),
        is_action(menu@[4], KvmInput::DisplayPort.token(), switch_to(KvmInput::DisplayPort)),
        is_label(menu@[5], MENU_SEPARATOR@),
        is_quit(menu@[6], "Quit"@),
{
    let mut menu: Vec<MenuEntry> = Vec::new();
    menu.push(
        MenuEntry::Action {
            label: "KVM Switch",
            args: Args { switch_back_input: None, run_trigger: true },
        },
    );
    menu.push(MenuEntry::Label { label: MENU_SEPARATOR });
    let inputs = KvmInput::all();
    let mut i: usize = 0;
    while i < inputs.len()
        invariant
            i <= inputs@.len(),
            inputs@ == seq![KvmInput::Hdmi1, KvmInput::Hdmi2, KvmInput::DisplayPort],
            menu@.len() == 2 + i,
            is_action(menu@[0], "KVM Switch"@, switch_only()),
            is_label(menu@[1], MENU_SEPARATOR@),
            forall|j: int|
                0 <= j < i ==> is_action(#[trigger] menu@[2 + j], inputs@[j].token(), switch_to(inputs@[j])),
        decreases inputs@.len() - i,
    {
        let input = inputs[i];
        menu.push(
            MenuEntry::Action {
                label: input.name(),
                args: Args { switch_back_input: Some(input), run_trigger: true },
            },
        );
        i = i + 1;
    }
    menu.push(MenuEntry::Label { label: MENU_SEPARATOR });
    menu.push(MenuEntry::Quit { label: "Quit" });
    assert(is_action(menu@[2 + 0int], inputs@[0].token(), switch_to(inputs@[0])));
    assert(is_action(menu@[2 + 1int], inputs@[1].token(), switch_to(inputs@[1])));
    assert(is_action(menu@[2 + 2int], inputs@[2].token(), switch_to(inputs@[2])));
    menu
}

} // verus!
