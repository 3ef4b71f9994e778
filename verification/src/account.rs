//! The library's picture of one account, and its storage-resize primitive.

use vstd::prelude::*;
use anchor_lang::solana_program::pubkey::Pubkey;
use crate::error::MaintenanceError;

verus! {

/// How many bytes an account's data may gain, over its length when the
/// current instruction began, before the runtime refuses the new length.
pub const MAX_PERMITTED_DATA_INCREASE: usize = 10_240;

/// The longest data buffer the runtime lets any account hold.
pub const MAX_PERMITTED_DATA_LENGTH: usize = 10_485_760;

/// One account as the maintenance logic sees it: an address, a balance in
/// lamports, a data buffer, and the facts the runtime keeps about it.
#[derive(Debug, Clone)]
pub struct Account {
    /// The account's address.
    pub key: Pubkey,
    /// The balance, in lamports.
    pub lamports: u64,
    /// The data buffer.
    pub data: Vec<u8>,
    /// The program that owns the account.
    pub owner: Pubkey,
    /// Whether the account signed the transaction.
    pub is_signer: bool,
    /// Whether the transaction may write to the account.
    pub is_writable: bool,
    /// Whether the account holds a loaded program.
    pub executable: bool,
    /// The length of the data buffer when the current instruction began.
    pub original_data_len: usize,
}

/// `data` cut or zero-extended to exactly `new_len` bytes: a shorter length
/// keeps the leading bytes, a longer one appends zeros.
pub open spec fn resized(data: Seq<u8>, new_len: nat) -> Seq<u8> {
    if new_len <= data.len() {
        data.take(new_len as int)
    } else {
        data + Seq::new((new_len - data.len()) as nat, |i: int| 0u8)
    }
}

/// Whether a buffer of `data_len` bytes, `original_len` bytes long when the
/// instruction began, may not be given `new_len` bytes. Keeping the length
/// is always allowed; any other length is refused once it exceeds
/// [`MAX_PERMITTED_DATA_LENGTH`], or the original length by more than
/// [`MAX_PERMITTED_DATA_INCREASE`].
pub open spec fn resize_refused(data_len: nat, original_len: nat, new_len: nat) -> bool {
    new_len != data_len && (new_len > MAX_PERMITTED_DATA_LENGTH
        || new_len - original_len > MAX_PERMITTED_DATA_INCREASE)
}

impl Account {
    /// Whether two accounts agree in what no holder of a handle can change:
    /// the address, the flags, and the buffer's length at the start of the
    /// instruction.
    pub open spec fn same_frame(self, other: Account) -> bool {
        &&& self.key == other.key
        &&& self.is_signer == other.is_signer
        &&& self.is_writable == other.is_writable
        &&& self.executable == other.executable
        &&& self.original_data_len == other.original_data_len
    }

    /// Whether two accounts differ in nothing but balance and data.
    pub open spec fn same_identity(self, other: Account) -> bool {
        &&& self.same_frame(other)
        &&& self.owner == other.owner
    }

    /// Whether `after` is something a call through the runtime may leave of
    /// this account once handed over: the balance, the data bytes and the
    /// owner are the runtime's to write; the frame and the buffer's length
    /// stay.
    pub open spec fn lent(self, after: Account) -> bool {
        &&& after.same_frame(self)
        &&& after.data@.len() == self.data@.len()
    }

    /// Whether this account's buffer may not be given `new_len` bytes.
    pub open spec fn refuses(self, new_len: usize) -> bool {
        resize_refused(self.data@.len(), self.original_data_len as nat, new_len as nat)
    }

    /// Gives the data buffer exactly `new_len` bytes, zero-filling what is
    /// added and dropping what is cut, or refuses and changes nothing.
    /// The balance is never touched.
    pub fn resize(&mut self, new_len: usize) -> (r: Result<(), MaintenanceError>)
        ensures
            final(self).same_identity(*old(self)),
            final(self).lamports == old(self).lamports,
            old(self).refuses(new_len) ==> {
                &&& r == Err::<(), MaintenanceError>(MaintenanceError::ResizeRejected)
                &&& final(self).data@ == old(self).data@
            },
            !old(self).refuses(new_len) ==> {
                &&& r == Ok::<(), MaintenanceError>(())
                &&& final(self).data@ == resized(old(self).data@, new_len as nat)
            },
    {
        let data_len: usize = self.data.len();
        if new_len == data_len {
            assert(self.data@.take(new_len as int) =~= self.data@);
            return Ok(());
        }
        if new_len > MAX_PERMITTED_DATA_LENGTH {
            return Err(MaintenanceError::ResizeRejected);
        }
        if new_len > self.original_data_len
            && new_len - self.original_data_len > MAX_PERMITTED_DATA_INCREASE {
            return Err(MaintenanceError::ResizeRejected);
        }
        self.data.resize(new_len, 0u8);
        assert(self.data@ =~= resized(old(self).data@, new_len as nat));
        Ok(())
    }
}

} // verus!
