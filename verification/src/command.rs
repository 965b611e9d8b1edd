//! The control transfers the monitor understands, and the queue of them that
//! a set of intents asks for.

use vstd::prelude::*;

use crate::input::KvmInput;

verus! {

/// The request type of every command: vendor, host to device.
pub const REQUEST_TYPE: u8 = 0x40;

/// The request code of every command.
pub const REQUEST: u8 = 178;

/// What a [`Command`] puts on the bus.
pub struct CommandView {
    pub rtype: u8,
    pub request: u8,
    pub value: u16,
    pub index: u16,
    pub buf: Seq<u8>,
}

/// The payload that stores `input` as the input to switch to on the next
/// trigger.
pub open spec fn select_payload(input: KvmInput) -> Seq<u8> {
    seq![0x6eu8, 0x51u8, 0x84u8, 0x03u8, 0xe0u8, 0x6bu8, input.spec_code()]
}

/// The payload that makes the monitor switch.
pub open spec fn trigger_payload() -> Seq<u8> {
    seq![0x6eu8, 0x51u8, 0x84u8, 0x03u8, 0xe0u8, 0x69u8, 0x01u8]
}

/// The transfer that carries `payload`: the envelope is the same for every
/// command.
pub open spec fn envelope(payload: Seq<u8>) -> CommandView {
    CommandView { rtype: REQUEST_TYPE, request: REQUEST, value: 0, index: 0, buf: payload }
}

/// The command that stores `input` as the input to switch to.
pub open spec fn select_command(input: KvmInput) -> CommandView {
    envelope(select_payload(input))
}

/// The command that makes the monitor switch.
pub open spec fn trigger_command() -> CommandView {
    envelope(trigger_payload())
}

/// Whether `command` is one of the commands of the protocol: the trigger, or
/// the selection of one of the inputs.
pub open spec fn is_protocol_command(command: CommandView) -> bool {
    ||| command == trigger_command()
    ||| exists|input: KvmInput| command == #[trigger] select_command(input)
}

/// One USB control transfer to the monitor. A value of this type is always a
/// command of the protocol.
pub struct Command {
    rtype: u8,
    request: u8,
    value: u16,
    index: u16,
    buf: Vec<u8>,
}

impl View for Command {
    type V = CommandView;

    closed spec fn view(&self) -> CommandView {
        CommandView {
            rtype: self.rtype,
            request: self.request,
            value: self.value,
            index: self.index,
            buf: self.buf@,
        }
    }
}

impl Command {
    #[verifier::type_invariant]
    spec fn well_formed(&self) -> bool {
        is_protocol_command(self@)
    }

    /// The command that stores `input` as the input to switch to on the next
    /// trigger.
    pub fn select_input(input: KvmInput) -> (command: Command)
        ensures
            command@ == select_command(input),
    {
        let buf: Vec<u8> = vec![0x6e, 0x51, 0x84, 0x03, 0xe0, 0x6b, input.code()];
        assert(is_protocol_command(select_command(input)));
        Command { rtype: REQUEST_TYPE, request: REQUEST, value: 0, index: 0, buf }
    }

    /// The command that makes the monitor switch.
    pub fn trigger() -> (command: Command)
        ensures
            command@ == trigger_command(),
    {
        let buf: Vec<u8> = vec![0x6e, 0x51, 0x84, 0x03, 0xe0, 0x69, 0x01];
        Command { rtype: REQUEST_TYPE, request: REQUEST, value: 0, index: 0, buf }
    }

    /// The request type byte.
    pub fn rtype(&self) -> (rtype: u8)
        ensures
            rtype == self@.rtype,
            rtype == REQUEST_TYPE,
    {
        proof {
            use_type_invariant(self);
        }
        self.rtype
    }

    /// The request code.
    pub fn request(&self) -> (request: u8)
        ensures
            request == self@.request,
            request == REQUEST,
    {
        proof {
            use_type_invariant(self);
        }
        self.request
    }

    /// The value field.
    pub fn value(&self) -> (value: u16)
        ensures
            value == self@.value,
            value == 0,
    {
        proof {
            use_type_invariant(self);
        }
        self.value
    }

    /// The index field.
    pub fn index(&self) -> (index: u16)
        ensures
            index == self@.index,
            index == 0,
    {
        proof {
            use_type_invariant(self);
        }
        self.index
    }

    /// The payload bytes.
    pub fn payload(&self) -> (payload: &[u8])
        ensures
            payload@ == self@.buf,
            is_protocol_command(self@),
    {
        proof {
            use_type_invariant(self);
        }
        self.buf.as_slice()
    }
}

/// What the caller wants done: store an input to switch to, make the monitor
/// switch, both, or neither.
#[derive(Copy, Clone, Debug, PartialEq, Eq)]
pub struct Args {
    pub switch_back_input: Option<KvmInput>,
    pub run_trigger: bool,
}

/// What each command of a queue puts on the bus.
pub open spec fn queue_view(queue: Seq<Command>) -> Seq<CommandView> {
    queue.map_values(|command: Command| command@)
}

/// The commands that `args` asks for. The selection comes before the trigger:
/// the monitor applies the stored input on the next trigger.
pub open spec fn command_queue(args: Args) -> Seq<CommandView> {
    match (args.switch_back_input, args.run_trigger) {
        (Some(input), true) => seq![select_command(input), trigger_command()],
        (Some(input), false) => seq![select_command(input)],
        (None, true) => seq![trigger_command()],
        (None, false) => Seq::empty(),
    }
}

/// Builds the queue of commands that `args` asks for.
pub fn cmd_queue_from_args(args: &Args) -> (cmds: Vec<Command>)
    ensures
        queue_view(cmds@) == command_queue(*args),
        match (args.switch_back_input, args.run_trigger) {
            (Some(input), true) => {
                &&& cmds@.len() == 2
                &&& cmds@[0]@ == select_command(input)
                &&& cmds@[1]@ == trigger_command()
            },
            (Some(input), false) => cmds@.len() == 1 && cmds@[0]@ == select_command(input),
            (None, true) => cmds@.len() == 1 && cmds@[0]@ == trigger_command(),
            (None, false) => cmds@.len() == 0,
        },
{
    let mut cmds: Vec<Command> = Vec::new();
    if let Some(input) = args.switch_back_input {
        cmds.push(Command::select_input(input));
    }
    if args.run_trigger {
        cmds.push(Command::trigger());
    }
    cmds
}

/// The selection payload of every input is the six bytes
/// `6e 51 84 03 e0 6b` followed by the wire code of the input.
pub proof fn lemma_select_payload_layout(input: KvmInput)
    ensures
        select_payload(input).len() == 7,
        select_payload(input).subrange(0, 6) == seq![0x6eu8, 0x51u8, 0x84u8, 0x03u8, 0xe0u8, 0x6bu8],
        select_payload(input).last() == input.spec_code(),
        select_command(input).buf == select_payload(input),
{
}

/// The trigger payload is the seven bytes `6e 51 84 03 e0 69 01`, and no
/// selection payload equals it.
pub proof fn lemma_trigger_payload_layout(input: KvmInput)
    ensures
        trigger_command().buf == seq![0x6eu8, 0x51u8, 0x84u8, 0x03u8, 0xe0u8, 0x69u8, 0x01u8],
        select_command(input) != trigger_command(),
{
}

} // verus!
