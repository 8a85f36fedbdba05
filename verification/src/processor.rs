use vstd::prelude::*;

use crate::account::{account_views, Account, AccountView, Identity};
use crate::errors::TestCounterError;
use crate::instructions::{parse_instruction, spec_parse_instruction, InstructionTypes};
use crate::state::{
    lemma_store_decode, spec_decode, spec_i64_from_le_bytes, stored_bytes, TestCounterAccount,
    RECORD_LEN, RECORD_PREFIX_LEN,
};
use crate::state::i64_from_le_bytes;

verus! {

/// The timestamp persisted by a Counter call: the host-observed time, or
/// the -1 sentinel when the host clock was unavailable.
pub open spec fn spec_timestamp(now: Option<i64>) -> i64 {
    match now {
        Some(t) => t,
        None => -1i64,
    }
}

/// The dispatcher: decodes the instruction, validates ownership and routes
/// to a state-transition handler.  It is the per-call transition function of
/// the program; all persisted state lives in the accounts it is handed.
pub struct Processor;

/// What ownership validation returns, checked in order: a missing data
/// account, then foreign ownership, then a missing signer account, then a
/// signer that is not the owner or did not sign.
pub open spec fn spec_verify_owner(program_id: Seq<u8>, accounts: Seq<AccountView>) -> Result<
    (),
    TestCounterError,
> {
    if accounts.len() < 1 {
        Err(TestCounterError::MissingAccount)
    } else if accounts[0].owning_program != program_id {
        Err(TestCounterError::IncorrectProgramId)
    } else if accounts.len() < 2 {
        Err(TestCounterError::MissingAccount)
    } else if accounts[0].owning_program != accounts[1].identity || !accounts[1].is_signer {
        Err(TestCounterError::IllegalOwner)
    } else {
        Ok(())
    }
}

/// What a Counter instruction does: with a data account present, an 8-byte
/// payload, a decodable record and a counter below its maximum, it bumps the
/// counter, stamps both timestamps and writes the record back into the data
/// account's buffer; on any failure every account is left unchanged.
pub open spec fn spec_counter_step(
    accounts: Seq<AccountView>,
    payload: Seq<u8>,
    now: Option<i64>,
) -> (Result<(), TestCounterError>, Seq<AccountView>) {
    if accounts.len() < 1 {
        (Err(TestCounterError::MissingAccount), accounts)
    } else if payload.len() != 8 {
        (Err(TestCounterError::WrongClientTimestamp), accounts)
    } else if accounts[0].data.len() < RECORD_PREFIX_LEN {
        (Err(TestCounterError::MalformedState), accounts)
    } else {
        let state = spec_decode(accounts[0].data)->Ok_0;
        if state.counter == u32::MAX {
            (Err(TestCounterError::AmountOverflow), accounts)
        } else {
            let new_state = TestCounterAccount {
                counter: (state.counter + 1) as u32,
                timestamp: spec_timestamp(now),
                client_timestamp: spec_i64_from_le_bytes(payload),
            };
            let data_account = accounts[0];
            let written = AccountView {
                identity: data_account.identity,
                owning_program: data_account.owning_program,
                balance: data_account.balance,
                data: stored_bytes(new_state, data_account.data),
                is_signer: data_account.is_signer,
            };
            (Ok(()), accounts.update(0, written))
        }
    }
}

/// What a DeleteAccount instruction does: with three accounts present and no
/// balance overflow, it adds the data account's whole balance to the
/// transfer account, then zeroes the data account's balance and empties its
/// buffer; on any failure every account is left unchanged.
pub open spec fn spec_delete_step(accounts: Seq<AccountView>) -> (
    Result<(), TestCounterError>,
    Seq<AccountView>,
) {
    if accounts.len() < 3 {
        (Err(TestCounterError::MissingAccount), accounts)
    } else if accounts[2].balance + accounts[0].balance > u64::MAX {
        (Err(TestCounterError::AmountOverflow), accounts)
    } else {
        let transfer_account = accounts[2];
        let data_account = accounts[0];
        let funded = AccountView {
            identity: transfer_account.identity,
            owning_program: transfer_account.owning_program,
            balance: (transfer_account.balance + data_account.balance) as u64,
            data: transfer_account.data,
            is_signer: transfer_account.is_signer,
        };
        let cleared = AccountView {
            identity: data_account.identity,
            owning_program: data_account.owning_program,
            balance: 0,
            data: Seq::<u8>::empty(),
            is_signer: data_account.is_signer,
        };
        (Ok(()), accounts.update(2, funded).update(0, cleared))
    }
}

/// What one whole call does: ownership validation first, then instruction
/// decode, then the matching state transition.
pub open spec fn spec_process(
    program_id: Seq<u8>,
    accounts: Seq<AccountView>,
    payload: Seq<u8>,
    now: Option<i64>,
) -> (Result<(), TestCounterError>, Seq<AccountView>) {
    if spec_verify_owner(program_id, accounts) is Err {
        (Err(spec_verify_owner(program_id, accounts)->Err_0), accounts)
    } else {
        let parsed = spec_parse_instruction(payload);
        match parsed.0 {
            InstructionTypes::Counter => spec_counter_step(accounts, parsed.1, now),
            InstructionTypes::DeleteAccount => spec_delete_step(accounts),
            InstructionTypes::Unknown => (Err(TestCounterError::InvalidInstruction), accounts),
        }
    }
}

impl Processor {
    /// Ownership validation, strictly prior to any effect: the data account
    /// must be owned by the invoking program, and that owner must have
    /// signed the transaction.
    pub fn verify_program_owner(program_id: &Identity, accounts: &Vec<Account>) -> (r: Result<
        (),
        TestCounterError,
    >)
        ensures
            r == spec_verify_owner(program_id@, account_views(accounts@)),
    {
        if accounts.len() < 1 {
            return Err(TestCounterError::MissingAccount);
        }
        let data_account = &accounts[0];
        if !data_account.owning_program.same_as(program_id) {
            return Err(TestCounterError::IncorrectProgramId);
        }
        if accounts.len() < 2 {
            return Err(TestCounterError::MissingAccount);
        }
        let signer_account = &accounts[1];
        if !data_account.owning_program.same_as(&signer_account.identity)
            || !signer_account.is_signer {
            return Err(TestCounterError::IllegalOwner);
        }
        Ok(())
    }

    /// The Counter handler: decode the record from the data account's
    /// buffer, increment the counter (checked, never wrapping), stamp the
    /// host time (-1 when unavailable) and the caller-supplied timestamp,
    /// and write the record back.
    pub fn process_counter(
        _program_id: &Identity,
        accounts: &mut Vec<Account>,
        instruction_data: &[u8],
        now: Option<i64>,
    ) -> (r: Result<(), TestCounterError>)
        ensures
            ({
                let (res, post) = spec_counter_step(
                    account_views(old(accounts)@),
                    instruction_data@,
                    now,
                );
                &&& r == res
                &&& account_views(final(accounts)@) == post
            }),
    {
        if accounts.len() < 1 {
            return Err(TestCounterError::MissingAccount);
        }
        let timestamp: i64 = match now {
            Some(t) => t,
            None => -1,
        };
        if instruction_data.len() != 8 {
            return Err(TestCounterError::WrongClientTimestamp);
        }
        let data_account = &accounts[0];
        let state = match TestCounterAccount::decode(data_account.data.as_slice()) {
            Err(e) => {
                return Err(e);
            },
            Ok(s) => s,
        };
        if state.counter == u32::MAX {
            return Err(TestCounterError::AmountOverflow);
        }
        let new_state = TestCounterAccount {
            counter: state.counter + 1,
            timestamp,
            client_timestamp: i64_from_le_bytes(instruction_data),
        };
        let data_account = &mut accounts[0];
        new_state.store_into(&mut data_account.data);
        proof {
            let (res, post) = spec_counter_step(
                account_views(old(accounts)@),
                instruction_data@,
                now,
            );
            assert(account_views(accounts@) =~= post);
        }
        Ok(())
    }

    /// The DeleteAccount handler: a full destructive close.  The transfer
    /// must validate before anything is touched; only then is the balance
    /// moved and the buffer cleared, as one conceptual step.
    pub fn process_delete_data_account(accounts: &mut Vec<Account>) -> (r: Result<
        (),
        TestCounterError,
    >)
        ensures
            ({
                let (res, post) = spec_delete_step(account_views(old(accounts)@));
                &&& r == res
                &&& account_views(final(accounts)@) == post
            }),
    {
        if accounts.len() < 3 {
            return Err(TestCounterError::MissingAccount);
        }
        let data_balance: u64 = accounts[0].balance;
        let transfer_balance: u64 = accounts[2].balance;
        let funded: u64 = match transfer_balance.checked_add(data_balance) {
            None => {
                return Err(TestCounterError::AmountOverflow);
            },
            Some(b) => b,
        };
        let transfer_account = &mut accounts[2];
        transfer_account.balance = funded;
        let data_account = &mut accounts[0];
        data_account.balance = 0;
        data_account.data = Vec::new();
        proof {
            let (res, post) = spec_delete_step(account_views(old(accounts)@));
            assert(account_views(accounts@) =~= post);
        }
        Ok(())
    }

    /// One whole instruction: validate ownership, decode the payload, route
    /// to the matching handler.  On any failure every account is returned to
    /// the host exactly as it was supplied.
    pub fn process(
        program_id: &Identity,
        accounts: &mut Vec<Account>,
        instruction_data: &[u8],
        now: Option<i64>,
    ) -> (r: Result<(), TestCounterError>)
        ensures
            ({
                let (res, post) = spec_process(
                    program_id@,
                    account_views(old(accounts)@),
                    instruction_data@,
                    now,
                );
                &&& r == res
                &&& account_views(final(accounts)@) == post
            }),
    {
        match Self::verify_program_owner(program_id, &*accounts) {
            Err(e) => {
                return Err(e);
            },
            Ok(()) => {},
        }
        let (instruction_type, rest_data) = parse_instruction(instruction_data);
        match instruction_type {
            InstructionTypes::Counter => Self::process_counter(
                program_id,
                accounts,
                rest_data,
                now,
            ),
            InstructionTypes::DeleteAccount => Self::process_delete_data_account(accounts),
            InstructionTypes::Unknown => Err(TestCounterError::InvalidInstruction),
        }
    }
}

/// Law: when ownership validation passes but the payload's first byte is no
/// recognized discriminant, the call fails with InvalidInstruction and no
/// account is mutated.
pub proof fn lemma_unknown_instruction_rejected(
    program_id: Seq<u8>,
    accounts: Seq<AccountView>,
    payload: Seq<u8>,
    now: Option<i64>,
)
    requires
        payload.len() >= 1,
        payload[0] != 0,
        payload[0] != 1,
        payload[0] != 2,
        spec_verify_owner(program_id, accounts) is Ok,
    ensures
        spec_process(program_id, accounts, payload, now) == (
            Err::<(), TestCounterError>(TestCounterError::InvalidInstruction),
            accounts,
        ),
{
}

/// Law: a Counter payload whose length is not 8 always fails with
/// WrongClientTimestamp and leaves every account, data buffer included,
/// byte-for-byte unchanged.
pub proof fn lemma_wrong_payload_length_rejected(
    accounts: Seq<AccountView>,
    payload: Seq<u8>,
    now: Option<i64>,
)
    requires
        accounts.len() >= 1,
        payload.len() != 8,
    ensures
        spec_counter_step(accounts, payload, now) == (
            Err::<(), TestCounterError>(TestCounterError::WrongClientTimestamp),
            accounts,
        ),
{
}

/// Law: a data account owned by a foreign program is rejected with
/// IncorrectProgramId before its buffer is ever decoded: the outcome is the
/// same whatever bytes the buffer holds, malformed or not.
pub proof fn lemma_foreign_owner_rejected(
    program_id: Seq<u8>,
    accounts: Seq<AccountView>,
    payload: Seq<u8>,
    now: Option<i64>,
)
    requires
        accounts.len() >= 1,
        accounts[0].owning_program != program_id,
    ensures
        spec_process(program_id, accounts, payload, now) == (
            Err::<(), TestCounterError>(TestCounterError::IncorrectProgramId),
            accounts,
        ),
{
}

/// Law: with three accounts and no balance overflow, DeleteAccount succeeds,
/// the transfer account's new balance is its old balance plus the data
/// account's whole balance, the data account's balance becomes zero and its
/// buffer becomes empty, and every other account is untouched.
pub proof fn lemma_delete_transfers_whole_balance(accounts: Seq<AccountView>)
    requires
        accounts.len() >= 3,
        accounts[2].balance + accounts[0].balance <= u64::MAX,
    ensures
        ({
            let (res, post) = spec_delete_step(accounts);
            &&& res == Ok::<(), TestCounterError>(())
            &&& post.len() == accounts.len()
            &&& post[2].balance == accounts[2].balance + accounts[0].balance
            &&& post[0].balance == 0
            &&& post[0].data.len() == 0
            &&& forall|i: int| 0 <= i < accounts.len() && i != 0 && i != 2 ==> post[i] == accounts[i]
        }),
{
}

/// Law: the persisted counter is monotonic, advancing by exactly one per
/// successful Counter step; when the data buffer holds the full record, the
/// new record is precisely the old counter plus one together with the host
/// timestamp and the caller's timestamp.
pub proof fn lemma_counter_steps_by_one(
    accounts: Seq<AccountView>,
    payload: Seq<u8>,
    now: Option<i64>,
)
    requires
        spec_counter_step(accounts, payload, now).0 is Ok,
    ensures
        ({
            let old_state = spec_decode(accounts[0].data)->Ok_0;
            let post = spec_counter_step(accounts, payload, now).1;
            &&& spec_decode(post[0].data) is Ok
            &&& spec_decode(post[0].data)->Ok_0.counter == old_state.counter + 1
            &&& spec_decode(post[0].data)->Ok_0.timestamp == spec_timestamp(now)
            &&& accounts[0].data.len() >= RECORD_LEN ==> spec_decode(post[0].data)->Ok_0
                == (TestCounterAccount {
                counter: (old_state.counter + 1) as u32,
                timestamp: spec_timestamp(now),
                client_timestamp: spec_i64_from_le_bytes(payload),
            })
        }),
{
    let old_state = spec_decode(accounts[0].data)->Ok_0;
    let new_state = TestCounterAccount {
        counter: (old_state.counter + 1) as u32,
        timestamp: spec_timestamp(now),
        client_timestamp: spec_i64_from_le_bytes(payload),
    };
    lemma_store_decode(new_state, accounts[0].data);
}

/// Law: when the balance addition would overflow, DeleteAccount fails with
/// AmountOverflow and leaves both balances and the data buffer completely
/// unchanged: there is no partial clear.
pub proof fn lemma_delete_overflow_rejected(accounts: Seq<AccountView>)
    requires
        accounts.len() >= 3,
        accounts[2].balance + accounts[0].balance > u64::MAX,
    ensures
        spec_delete_step(accounts) == (
            Err::<(), TestCounterError>(TestCounterError::AmountOverflow),
            accounts,
        ),
{
}

} // verus!
