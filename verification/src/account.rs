use vstd::array::array_index_get;
use vstd::prelude::*;

verus! {

/// An opaque fixed-size binary address, used both for an account's own
/// identity and for the identity of the program that owns it.
#[derive(Clone, Copy, Debug)]
pub struct Identity {
    pub bytes: [u8; 32],
}

impl View for Identity {
    type V = Seq<u8>;

    open spec fn view(&self) -> Seq<u8> {
        self.bytes@
    }
}

impl Identity {
    /// Byte-for-byte comparison of two identities.
    pub fn same_as(&self, other: &Identity) -> (r: bool)
        ensures
            r == (self@ == other@),
    {
        let mut i: usize = 0;
        while i < 32
            invariant
                0 <= i <= 32,
                forall|j: int| 0 <= j < i ==> self.bytes@[j] == other.bytes@[j],
            decreases 32 - i,
        {
            if *array_index_get(&self.bytes, i) != *array_index_get(&other.bytes, i) {
                proof {
                    assert(self.bytes@[i as int] != other.bytes@[i as int]);
                }
                return false;
            }
            i = i + 1;
        }
        proof {
            assert(self@ =~= other@);
        }
        true
    }
}

/// One ledger-persisted storage slot, supplied by the host for the duration
/// of a single instruction.  The processor mutates it in place and never
/// retains it beyond the call.
pub struct Account {
    /// The account's unique address.
    pub identity: Identity,
    /// Identity of the program authorized to mutate this account's data.
    pub owning_program: Identity,
    /// Non-negative unit of value held by the account.
    pub balance: u64,
    /// The account's raw byte buffer, exclusively owned for the call.
    pub data: Vec<u8>,
    /// True if the transaction was cryptographically authorized by this
    /// account's controller.
    pub is_signer: bool,
}

/// The mathematical abstraction of an [`Account`]: every field reduced to a
/// plain value, with both identities and the data buffer as byte sequences.
#[verifier::ext_equal]
pub ghost struct AccountView {
    pub identity: Seq<u8>,
    pub owning_program: Seq<u8>,
    pub balance: u64,
    pub data: Seq<u8>,
    pub is_signer: bool,
}

impl View for Account {
    type V = AccountView;

    open spec fn view(&self) -> AccountView {
        AccountView {
            identity: self.identity@,
            owning_program: self.owning_program@,
            balance: self.balance,
            data: self.data@,
            is_signer: self.is_signer,
        }
    }
}

/// The abstraction of an ordered account list, element by element.
pub open spec fn account_views(accounts: Seq<Account>) -> Seq<AccountView> {
    Seq::new(accounts.len(), |i: int| accounts[i]@)
}

} // verus!
