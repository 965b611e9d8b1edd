//! The inputs the monitor can route to its USB hub, their wire codes and
//! their textual names.

use vstd::prelude::*;

verus! {

/// A physical input of the monitor.
#[derive(Copy, Clone, Debug, PartialEq, Eq, Structural)]
pub enum KvmInput {
    Hdmi1,
    Hdmi2,
    DisplayPort,
}

/// A text that names none of the inputs.
#[derive(Copy, Clone, Debug, PartialEq, Eq, Structural)]
pub struct InvalidInputToken;

/// The input that a text names, if it names one. Names are case-sensitive
/// and matched as a whole.
pub open spec fn parse_token(text: Seq<char>) -> Option<KvmInput> {
    if text == KvmInput::Hdmi1.token() {
        Some(KvmInput::Hdmi1)
    } else if text == KvmInput::Hdmi2.token() {
        Some(KvmInput::Hdmi2)
    } else if text == KvmInput::DisplayPort.token() {
        Some(KvmInput::DisplayPort)
    } else {
        None
    }
}

/// Whether two strings hold the same characters.
fn same_text(a: &str, b: &str) -> (same: bool)
    ensures
        same == (a@ == b@),
{
    let n: usize = a.unicode_len();
    if n != b.unicode_len() {
        return false;
    }
    let mut i: usize = 0;
    while i < n
        invariant
            n == a@.len(),
            n == b@.len(),
            i <= n,
            forall|j: int| 0 <= j < i ==> a@[j] == b@[j],
        decreases n - i,
    {
        if a.get_char(i) != b.get_char(i) {
            return false;
        }
        i = i + 1;
    }
    assert(a@ =~= b@);
    true
}

impl KvmInput {
    /// The byte that selects this input on the wire.
    pub open spec fn spec_code(self) -> u8 {
        match self {
            KvmInput::Hdmi1 => 0x00,
            KvmInput::Hdmi2 => 0x01,
            KvmInput::DisplayPort => 0x02,
        }
    }

    /// The name of this input as users write it.
    pub open spec fn token(self) -> Seq<char> {
        match self {
            KvmInput::Hdmi1 => "HDMI1"@,
            KvmInput::Hdmi2 => "HDMI2"@,
            KvmInput::DisplayPort => "DP"@,
        }
    }

    /// The byte that selects this input on the wire.
    #[verifier::when_used_as_spec(spec_code)]
    pub fn code(self) -> (code: u8)
        ensures
            code == self.spec_code(),
    {
        match self {
            KvmInput::Hdmi1 => 0x00,
            KvmInput::Hdmi2 => 0x01,
            KvmInput::DisplayPort => 0x02,
        }
    }

    /// The name of this input as users write it.
    pub fn name(self) -> (name: &'static str)
        ensures
            name@ == self.token(),
    {
        match self {
            KvmInput::Hdmi1 => "HDMI1",
            KvmInput::Hdmi2 => "HDMI2",
            KvmInput::DisplayPort => "DP",
        }
    }

    /// Reads an input from its name. Exactly `HDMI1`, `HDMI2` and `DP` are
    /// accepted; every other text is an [`InvalidInputToken`].
    pub fn from_str(s: &str) -> (parsed: Result<KvmInput, InvalidInputToken>)
        ensures
            parsed == match parse_token(s@) {
                Some(input) => Ok::<KvmInput, InvalidInputToken>(input),
                None => Err(InvalidInputToken),
            },
    {
        if same_text(s, "HDMI1") {
            Ok(KvmInput::Hdmi1)
        } else if same_text(s, "HDMI2") {
            Ok(KvmInput::Hdmi2)
        } else if same_text(s, "DP") {
            Ok(KvmInput::DisplayPort)
        } else {
            Err(InvalidInputToken)
        }
    }

    /// Every input, in the order of their wire codes.
    pub fn all() -> (inputs: Vec<KvmInput>)
        ensures
            inputs@ == seq![KvmInput::Hdmi1, KvmInput::Hdmi2, KvmInput::DisplayPort],
    {
        vec![KvmInput::Hdmi1, KvmInput::Hdmi2, KvmInput::DisplayPort]
    }
}

impl InvalidInputToken {
    /// What to tell the user who wrote the text.
    pub open spec fn spec_message() -> Seq<char> {
        "Invalid KVM input - valid inputs are HDMI1,HDMI2,DP"@
    }

    /// What to tell the user who wrote the text.
    pub fn message(&self) -> (message: &'static str)
        ensures
            message@ == Self::spec_message(),
    {
        "Invalid KVM input - valid inputs are HDMI1,HDMI2,DP"
    }
}

/// Distinct inputs have distinct names and distinct wire codes.
pub proof fn lemma_inputs_distinct(a: KvmInput, b: KvmInput)
    ensures
        a.token() == b.token() ==> a == b,
        a.spec_code() == b.spec_code() ==> a == b,
{
    reveal_strlit("HDMI1");
    reveal_strlit("HDMI2");
    reveal_strlit("DP");
    if a != b && a.token() == b.token() {
        assert(a.token().len() == b.token().len());
        assert(a.token()[4] == b.token()[4]);
    }
}

/// Reading the name of an input gives that input back, and a text is read as
/// an input only if it is that input's name.
pub proof fn lemma_parse_token_inverts_token(input: KvmInput, text: Seq<char>)
    ensures
        parse_token(input.token()) == Some(input),
        parse_token(text) == Some(input) <==> text == input.token(),
        parse_token(text) is None <==> forall|other: KvmInput| text != #[trigger] other.token(),
{
    lemma_inputs_distinct(input, KvmInput::Hdmi1);
    lemma_inputs_distinct(input, KvmInput::Hdmi2);
    lemma_inputs_distinct(input, KvmInput::DisplayPort);
    lemma_inputs_distinct(KvmInput::Hdmi1, KvmInput::Hdmi2);
    lemma_inputs_distinct(KvmInput::Hdmi1, KvmInput::DisplayPort);
    lemma_inputs_distinct(KvmInput::Hdmi2, KvmInput::DisplayPort);
    if parse_token(text) is None {
        assert forall|other: KvmInput| text != #[trigger] other.token() by {
            match other {
                KvmInput::Hdmi1 => {},
                KvmInput::Hdmi2 => {},
                KvmInput::DisplayPort => {},
            }
        }
    }
}

} // verus!
