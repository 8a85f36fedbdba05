use vstd::prelude::*;
use vstd::slice::{slice_index_get, slice_subrange};

verus! {

/// The typed operation requests a payload can carry.
#[derive(Clone, Copy, Debug, PartialEq, Eq, Structural)]
pub enum InstructionTypes {
    /// Discriminant 0, or any unrecognized discriminant, or an empty payload.
    Unknown,
    /// Discriminant 1.  Accounts expected (2):
    /// 0. `[writable]` data account where the counter record is stored
    /// 1. `[]` account owning the data account, which has to sign the transaction
    Counter,
    /// Discriminant 2.  Accounts expected (3):
    /// 0. `[writable]` data account where the counter record is stored
    /// 1. `[]` account owning the data account, which has to sign the transaction
    /// 2. `[writable]` account receiving the data account's whole balance
    DeleteAccount,
}

/// What [`parse_instruction`] returns: the first byte split off as a
/// discriminant, the rest handed on as the instruction's payload.  An empty
/// input is itself a valid decode, with the Unknown sentinel as its tag.
pub open spec fn spec_parse_instruction(input: Seq<u8>) -> (InstructionTypes, Seq<u8>) {
    if input.len() == 0 {
        (InstructionTypes::Unknown, input)
    } else {
        let tag: u8 = input[0];
        let rest = input.skip(1);
        if tag == 1 {
            (InstructionTypes::Counter, rest)
        } else if tag == 2 {
            (InstructionTypes::DeleteAccount, rest)
        } else {
            (InstructionTypes::Unknown, rest)
        }
    }
}

/// Split a raw byte payload into its instruction tag and remaining bytes.
/// Never fails and has no side effects.
pub fn parse_instruction(input: &[u8]) -> (r: (InstructionTypes, &[u8]))
    ensures
        r.0 == spec_parse_instruction(input@).0,
        r.1@ == spec_parse_instruction(input@).1,
{
    if input.len() == 0 {
        return (InstructionTypes::Unknown, input);
    }
    let tag: u8 = *slice_index_get(input, 0);
    let rest = slice_subrange(input, 1, input.len());
    proof {
        assert(rest@ =~= input@.skip(1));
    }
    let instruction_type = if tag == 1 {
        InstructionTypes::Counter
    } else if tag == 2 {
        InstructionTypes::DeleteAccount
    } else {
        InstructionTypes::Unknown
    };
    (instruction_type, rest)
}

/// Law: a payload whose first byte is none of the recognized discriminants
/// parses to the Unknown instruction.
pub proof fn lemma_unrecognized_discriminant(payload: Seq<u8>)
    requires
        payload.len() >= 1,
        payload[0] != 0,
        payload[0] != 1,
        payload[0] != 2,
    ensures
        spec_parse_instruction(payload).0 == InstructionTypes::Unknown,
{
}

} // verus!
