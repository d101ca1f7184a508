use vstd::prelude::*;
use crate::error::ErrorCode;
use crate::pubkey::Pubkey;

verus! {

/// An account buffer as the runtime hands it over: its address, its owner
/// program, its flags and balance, its bytes, and the borrows of those bytes
/// that are currently outstanding elsewhere.
#[derive(Debug, Clone)]
pub struct AccountInfo {
    pub key: Pubkey,
    pub owner: Pubkey,
    pub lamports: u64,
    pub is_signer: bool,
    pub is_writable: bool,
    pub data: Vec<u8>,
    pub shared_borrows: u64,
    pub mut_borrowed: bool,
}

impl AccountInfo {
    /// The account's bytes.
    pub open spec fn data_spec(&self) -> Seq<u8> {
        self.data@
    }

    /// Number of shared borrows of the bytes that are outstanding.
    pub open spec fn shared_borrows_spec(&self) -> nat {
        self.shared_borrows as nat
    }

    /// Whether an exclusive borrow of the bytes is outstanding.
    pub open spec fn mut_borrowed_spec(&self) -> bool {
        self.mut_borrowed
    }

    /// Two buffers agree in every field and in every byte.
    pub open spec fn same_as(&self, o: &AccountInfo) -> bool {
        &&& self.key == o.key
        &&& self.owner == o.owner
        &&& self.lamports == o.lamports
        &&& self.is_signer == o.is_signer
        &&& self.is_writable == o.is_writable
        &&& self.data@ == o.data@
        &&& self.shared_borrows == o.shared_borrows
        &&& self.mut_borrowed == o.mut_borrowed
    }

    /// The bytes can be read: no exclusive borrow is outstanding.
    pub open spec fn can_borrow(&self) -> bool {
        !self.mut_borrowed_spec()
    }

    /// The bytes can be written: no borrow of either kind is outstanding.
    pub open spec fn can_borrow_mut(&self) -> bool {
        !self.mut_borrowed_spec() && self.shared_borrows_spec() == 0
    }

    /// A buffer with no outstanding borrows.
    pub fn new(
        key: Pubkey,
        owner: Pubkey,
        lamports: u64,
        is_signer: bool,
        is_writable: bool,
        data: Vec<u8>,
    ) -> (r: AccountInfo)
        ensures
            r.key == key,
            r.owner == owner,
            r.lamports == lamports,
            r.is_signer == is_signer,
            r.is_writable == is_writable,
            r.data_spec() == data@,
            r.shared_borrows_spec() == 0,
            !r.mut_borrowed_spec(),
    {
        AccountInfo {
            key,
            owner,
            lamports,
            is_signer,
            is_writable,
            data,
            shared_borrows: 0,
            mut_borrowed: false,
        }
    }

    /// A copy of the buffer, borrows included.
    pub fn clone_info(&self) -> (r: AccountInfo)
        ensures
            r.same_as(self),
    {
        let data = self.data.clone();
        assert(data@ =~= self.data@);
        AccountInfo {
            key: self.key,
            owner: self.owner,
            lamports: self.lamports,
            is_signer: self.is_signer,
            is_writable: self.is_writable,
            data,
            shared_borrows: self.shared_borrows,
            mut_borrowed: self.mut_borrowed,
        }
    }

    /// The account's balance.
    pub fn lamports(&self) -> (r: u64)
        ensures
            r == self.lamports,
    {
        self.lamports
    }

    /// Reads the bytes, unless an exclusive borrow is outstanding.
    pub fn try_borrow_data(&self) -> (r: Result<&[u8], ErrorCode>)
        ensures
            self.can_borrow() ==> (r matches Ok(d) && d@ == self.data_spec()),
            !self.can_borrow() ==> r == Err::<&[u8], ErrorCode>(ErrorCode::AccountBorrowFailed),
    {
        if self.mut_borrowed {
            Err(ErrorCode::AccountBorrowFailed)
        } else {
            Ok(self.data.as_slice())
        }
    }

    /// Takes a shared borrow of the bytes and keeps it outstanding until
    /// `release_data`; fails if an exclusive borrow is outstanding.
    pub fn acquire_data(&mut self) -> (r: Result<(), ErrorCode>)
        ensures
            final(self).key == old(self).key,
            final(self).owner == old(self).owner,
            final(self).lamports == old(self).lamports,
            final(self).is_signer == old(self).is_signer,
            final(self).is_writable == old(self).is_writable,
            final(self).data_spec() == old(self).data_spec(),
            final(self).mut_borrowed_spec() == old(self).mut_borrowed_spec(),
            r is Ok <==> (old(self).can_borrow() && old(self).shared_borrows_spec() < u64::MAX),
            r is Ok ==> final(self).shared_borrows_spec() == old(self).shared_borrows_spec() + 1,
            r is Err ==> r == Err::<(), ErrorCode>(ErrorCode::AccountBorrowFailed)
                && final(self).shared_borrows_spec() == old(self).shared_borrows_spec(),
    {
        if self.mut_borrowed || self.shared_borrows == u64::MAX {
            return Err(ErrorCode::AccountBorrowFailed);
        }
        self.shared_borrows = self.shared_borrows + 1;
        Ok(())
    }

    /// Gives back a shared borrow taken by `acquire_data`.
    pub fn release_data(&mut self)
        requires
            old(self).shared_borrows_spec() > 0,
        ensures
            final(self).key == old(self).key,
            final(self).owner == old(self).owner,
            final(self).lamports == old(self).lamports,
            final(self).is_signer == old(self).is_signer,
            final(self).is_writable == old(self).is_writable,
            final(self).data_spec() == old(self).data_spec(),
            final(self).mut_borrowed_spec() == old(self).mut_borrowed_spec(),
            final(self).shared_borrows_spec() == old(self).shared_borrows_spec() - 1,
    {
        self.shared_borrows = self.shared_borrows - 1;
    }

    /// Takes the exclusive borrow of the bytes and keeps it outstanding until
    /// `release_data_mut`; fails if any borrow is outstanding.
    pub fn acquire_data_mut(&mut self) -> (r: Result<(), ErrorCode>)
        ensures
            final(self).key == old(self).key,
            final(self).owner == old(self).owner,
            final(self).lamports == old(self).lamports,
            final(self).is_signer == old(self).is_signer,
            final(self).is_writable == old(self).is_writable,
            final(self).data_spec() == old(self).data_spec(),
            final(self).shared_borrows_spec() == old(self).shared_borrows_spec(),
            r is Ok <==> old(self).can_borrow_mut(),
            r is Ok ==> final(self).mut_borrowed_spec(),
            r is Err ==> r == Err::<(), ErrorCode>(ErrorCode::AccountBorrowFailed)
                && final(self).mut_borrowed_spec() == old(self).mut_borrowed_spec(),
    {
        if self.mut_borrowed || self.shared_borrows != 0 {
            return Err(ErrorCode::AccountBorrowFailed);
        }
        self.mut_borrowed = true;
        Ok(())
    }

    /// Gives back the exclusive borrow taken by `acquire_data_mut`.
    pub fn release_data_mut(&mut self)
        requires
            old(self).mut_borrowed_spec(),
        ensures
            final(self).key == old(self).key,
            final(self).owner == old(self).owner,
            final(self).lamports == old(self).lamports,
            final(self).is_signer == old(self).is_signer,
            final(self).is_writable == old(self).is_writable,
            final(self).data_spec() == old(self).data_spec(),
            final(self).shared_borrows_spec() == old(self).shared_borrows_spec(),
            !final(self).mut_borrowed_spec(),
    {
        self.mut_borrowed = false;
    }

    /// Writes `src` over the first bytes of the buffer, leaving the rest as it
    /// was. Fails, changing nothing, if a borrow is outstanding or if `src`
    /// is longer than the buffer.
    pub fn try_write_data(&mut self, src: &[u8]) -> (r: Result<(), ErrorCode>)
        ensures
            final(self).key == old(self).key,
            final(self).owner == old(self).owner,
            final(self).lamports == old(self).lamports,
            final(self).is_signer == old(self).is_signer,
            final(self).is_writable == old(self).is_writable,
            final(self).shared_borrows_spec() == old(self).shared_borrows_spec(),
            final(self).mut_borrowed_spec() == old(self).mut_borrowed_spec(),
            !old(self).can_borrow_mut() ==> r == Err::<(), ErrorCode>(ErrorCode::AccountBorrowFailed),
            old(self).can_borrow_mut() && src@.len() > old(self).data_spec().len()
                ==> r == Err::<(), ErrorCode>(ErrorCode::AccountDidNotSerialize),
            old(self).can_borrow_mut() && src@.len() <= old(self).data_spec().len() ==> r == Ok::<(), ErrorCode>(()),
            r is Ok ==> final(self).data_spec() == overwrite_prefix(old(self).data_spec(), src@),
            r is Err ==> final(self).data_spec() == old(self).data_spec(),
    {
        if self.mut_borrowed || self.shared_borrows != 0 {
            return Err(ErrorCode::AccountBorrowFailed);
        }
        if src.len() > self.data.len() {
            return Err(ErrorCode::AccountDidNotSerialize);
        }
        let mut i: usize = 0;
        while i < src.len()
            invariant
                i <= src@.len() <= old(self).data_spec().len(),
                self.key == old(self).key,
                self.owner == old(self).owner,
                self.lamports == old(self).lamports,
                self.is_signer == old(self).is_signer,
                self.is_writable == old(self).is_writable,
                self.shared_borrows == old(self).shared_borrows,
                self.mut_borrowed == old(self).mut_borrowed,
                self.data@.len() == old(self).data_spec().len(),
                forall|j: int| 0 <= j < i ==> self.data@[j] == src@[j],
                forall|j: int| i <= j < self.data@.len() ==> self.data@[j] == old(self).data_spec()[j],
            decreases src@.len() - i,
        {
            self.data.set(i, src[i]);
            i = i + 1;
        }
        assert(self.data@ =~= overwrite_prefix(old(self).data_spec(), src@));
        Ok(())
    }

    /// Replaces the whole contents of the buffer, as a call into another
    /// program may do while this one holds no borrow.
    pub fn assign_data(&mut self, data: Vec<u8>)
        ensures
            final(self).key == old(self).key,
            final(self).owner == old(self).owner,
            final(self).lamports == old(self).lamports,
            final(self).is_signer == old(self).is_signer,
            final(self).is_writable == old(self).is_writable,
            final(self).shared_borrows_spec() == old(self).shared_borrows_spec(),
            final(self).mut_borrowed_spec() == old(self).mut_borrowed_spec(),
            final(self).data_spec() == data@,
    {
        self.data = data;
    }
}

/// `buf` with its first `src.len()` bytes replaced by `src`.
pub open spec fn overwrite_prefix(buf: Seq<u8>, src: Seq<u8>) -> Seq<u8>
    recommends
        src.len() <= buf.len(),
{
    src + buf.subrange(src.len() as int, buf.len() as int)
}

} // verus!
