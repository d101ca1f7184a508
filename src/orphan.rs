use vstd::prelude::*;
use crate::account_info::{overwrite_prefix, AccountInfo};
use crate::codec::{
    decode_spec, decode_unchecked_spec, encode_spec, has_discriminator,
    lemma_round_trip_with_trailing, try_deserialize, try_deserialize_unchecked,
    try_serialize, AccountData,
};
use crate::error::ErrorCode;
use crate::pubkey::{system_program_id_spec, Pubkey};

verus! {

/// Marks a record type that may be held by an `OrphanAccount`. It carries no
/// operations: it only scopes which types the handle can be built over.
pub trait Orphan {}

/// An entry of the account list that an instruction hands to another program.
#[derive(Debug, Clone, Copy)]
pub struct AccountMeta {
    pub pubkey: Pubkey,
    pub is_signer: bool,
    pub is_writable: bool,
}

impl AccountMeta {
    /// A writable entry.
    pub fn new(pubkey: Pubkey, is_signer: bool) -> (r: AccountMeta)
        ensures
            r == (AccountMeta { pubkey, is_signer, is_writable: true }),
    {
        AccountMeta { pubkey, is_signer, is_writable: true }
    }

    /// A read-only entry.
    pub fn new_readonly(pubkey: Pubkey, is_signer: bool) -> (r: AccountMeta)
        ensures
            r == (AccountMeta { pubkey, is_signer, is_writable: false }),
    {
        AccountMeta { pubkey, is_signer, is_writable: false }
    }
}

/// The account is owned by the system program and holds no lamports: it was
/// never initialized, or has been emptied.
pub open spec fn is_uninitialized(info: &AccountInfo) -> bool {
    info.owner@ == system_program_id_spec() && info.lamports == 0
}

/// What building a handle over `info` gives, where `decoded` is what decoding
/// its bytes gives.
pub open spec fn construct_outcome<T>(info: &AccountInfo, decoded: Result<T, ErrorCode>) -> Result<
    T,
    ErrorCode,
> {
    if is_uninitialized(info) {
        Err(ErrorCode::AccountNotInitialized)
    } else if !info.can_borrow() {
        Err(ErrorCode::AccountBorrowFailed)
    } else {
        decoded
    }
}

/// What writing `v` back to `info` at the end of an instruction of
/// `program_id` does to the buffer: the result and the bytes afterwards.
pub open spec fn exit_outcome<T: AccountData>(info: &AccountInfo, v: T, program_id: Seq<u8>) -> (
    Result<(), ErrorCode>,
    Seq<u8>,
) {
    let enc = encode_spec(v);
    if info.owner@ != program_id {
        (Ok(()), info.data@)
    } else if !info.can_borrow_mut() {
        (Err(ErrorCode::AccountBorrowFailed), info.data@)
    } else if enc.len() > info.data@.len() {
        (Err(ErrorCode::AccountDidNotSerialize), info.data@)
    } else {
        (Ok(()), overwrite_prefix(info.data@, enc))
    }
}

/// A decoded record bound to the account buffer it was read from. The record
/// is written back at the end of the instruction only if the account is owned
/// by the running program, and the handle cannot close the account.
#[derive(Debug, Clone)]
pub struct OrphanAccount<T: AccountData + Orphan> {
    account: T,
    info: AccountInfo,
}

impl<T: AccountData + Orphan> OrphanAccount<T> {
    /// The decoded record.
    pub closed spec fn value(&self) -> T {
        self.account
    }

    /// The account buffer.
    pub closed spec fn info_spec(&self) -> AccountInfo {
        self.info
    }

    /// The handle holds `v` over a buffer that agrees with `info` throughout.
    pub open spec fn holds(&self, v: T, info: &AccountInfo) -> bool {
        self.value() == v && self.info_spec().same_as(info)
    }

    /// The outcome `r` of building a handle over `info` is `expected`.
    pub open spec fn built_as(r: Result<Self, ErrorCode>, info: &AccountInfo, expected: Result<T, ErrorCode>) -> bool {
        match (r, expected) {
            (Ok(h), Ok(v)) => h.holds(v, info),
            (Err(e), Err(f)) => e == f,
            _ => false,
        }
    }

    fn new(info: AccountInfo, account: T) -> (r: Self)
        ensures
            r.value() == account,
            r.info_spec() == info,
    {
        OrphanAccount { account, info }
    }

    /// Builds a handle over `info`, decoding its bytes with the discriminator
    /// check. Fails if the account is uninitialized, if its bytes are
    /// exclusively borrowed, or if they do not decode as `T`.
    pub fn try_from(info: &AccountInfo) -> (r: Result<Self, ErrorCode>)
        ensures
            Self::built_as(r, info, construct_outcome(info, decode_spec::<T>(info.data@))),
    {
        if info.owner.equals(&Pubkey::system_program_id()) && info.lamports() == 0 {
            return Err(ErrorCode::AccountNotInitialized);
        }
        let data = info.try_borrow_data()?;
        let account = try_deserialize::<T>(data)?;
        Ok(OrphanAccount::new(info.clone_info(), account))
    }

    /// Builds a handle over `info` without checking the discriminator. A
    /// record of another type with the same layout is accepted: use this only
    /// where the type is known by other means.
    pub fn try_from_unchecked(info: &AccountInfo) -> (r: Result<Self, ErrorCode>)
        ensures
            Self::built_as(r, info, construct_outcome(info, decode_unchecked_spec::<T>(info.data@))),
    {
        if info.owner.equals(&Pubkey::system_program_id()) && info.lamports() == 0 {
            return Err(ErrorCode::AccountNotInitialized);
        }
        let data = info.try_borrow_data()?;
        let account = try_deserialize_unchecked::<T>(data)?;
        Ok(OrphanAccount::new(info.clone_info(), account))
    }

    /// Decodes the buffer again, as after a call into another program that
    /// may have changed it. The record is replaced only on success; on failure
    /// the handle keeps the record it held.
    pub fn reload(&mut self) -> (r: Result<(), ErrorCode>)
        ensures
            final(self).info_spec() == old(self).info_spec(),
            ({
                let outcome = if old(self).info_spec().can_borrow() {
                    decode_spec::<T>(old(self).info_spec().data@)
                } else {
                    Err(ErrorCode::AccountBorrowFailed)
                };
                match outcome {
                    Ok(v) => r is Ok && final(self).value() == v,
                    Err(e) => r == Err::<(), ErrorCode>(e) && final(self).value() == old(self).value(),
                }
            }),
    {
        let data = self.info.try_borrow_data()?;
        let account = try_deserialize::<T>(data)?;
        self.account = account;
        Ok(())
    }

    /// Gives up the handle and returns the record.
    pub fn into_inner(self) -> (r: T)
        ensures
            r == self.value(),
    {
        self.account
    }

    /// Replaces the record without decoding anything.
    pub fn set_inner(&mut self, inner: T)
        ensures
            final(self).value() == inner,
            final(self).info_spec() == old(self).info_spec(),
    {
        self.account = inner;
    }

    /// Builds a handle over the first account of `accounts` and removes it
    /// from the list. Fails, leaving the list as it was, if the list is empty.
    pub fn try_accounts(accounts: &mut Vec<AccountInfo>) -> (r: Result<Self, ErrorCode>)
        ensures
            old(accounts)@.len() == 0 ==> r == Err::<Self, ErrorCode>(ErrorCode::AccountNotEnoughKeys)
                && final(accounts)@ == old(accounts)@,
            old(accounts)@.len() > 0 ==> final(accounts)@ == old(accounts)@.drop_first()
                && Self::built_as(
                r,
                &old(accounts)@[0],
                construct_outcome(&old(accounts)@[0], decode_spec::<T>(old(accounts)@[0].data@)),
            ),
    {
        if accounts.len() == 0 {
            return Err(ErrorCode::AccountNotEnoughKeys);
        }
        let first = accounts.remove(0);
        assert(old(accounts)@.remove(0) =~= old(accounts)@.drop_first());
        OrphanAccount::try_from(&first)
    }

    /// Writes the record back to the buffer at the end of an instruction of
    /// `program_id`. An account owned by another program is left untouched
    /// and the call succeeds. Otherwise the serialized record overwrites the
    /// first bytes of the buffer; this fails, writing nothing, if the bytes
    /// are borrowed or too short.
    pub fn exit(&mut self, program_id: &Pubkey) -> (r: Result<(), ErrorCode>)
        ensures
            final(self).value() == old(self).value(),
            ({
                let info = old(self).info_spec();
                let fin = final(self).info_spec();
                let out = exit_outcome(&info, old(self).value(), program_id@);
                &&& r == out.0
                &&& fin.data@ == out.1
                &&& fin.key == info.key
                &&& fin.owner == info.owner
                &&& fin.lamports == info.lamports
                &&& fin.is_signer == info.is_signer
                &&& fin.is_writable == info.is_writable
                &&& fin.shared_borrows == info.shared_borrows
                &&& fin.mut_borrowed == info.mut_borrowed
            }),
    {
        if self.info.owner.equals(program_id) {
            let bytes = try_serialize(&self.account);
            self.info.try_write_data(bytes.as_slice())
        } else {
            Ok(())
        }
    }

    /// Closing is not supported for this handle: the write-back at the end of
    /// the instruction would overwrite the closed-account marker and revive
    /// the account. Every call fails and nothing is written.
    pub fn close(&self, sol_destination: &AccountInfo) -> (r: Result<(), ErrorCode>)
        ensures
            r == Err::<(), ErrorCode>(ErrorCode::CloseUnsupported),
    {
        Err(ErrorCode::CloseUnsupported)
    }

    /// The account as an entry of an instruction's account list. It is
    /// writable if the buffer is; it signs as `is_signer` says, or as the
    /// buffer does when that is `None`.
    pub fn to_account_metas(&self, is_signer: Option<bool>) -> (r: Vec<AccountMeta>)
        ensures
            r@ == seq![
                AccountMeta {
                    pubkey: self.info_spec().key,
                    is_signer: match is_signer {
                        Some(s) => s,
                        None => self.info_spec().is_signer,
                    },
                    is_writable: self.info_spec().is_writable,
                },
            ],
    {
        let is_signer = match is_signer {
            Some(s) => s,
            None => self.info.is_signer,
        };
        let meta = if self.info.is_writable {
            AccountMeta::new(self.info.key, is_signer)
        } else {
            AccountMeta::new_readonly(self.info.key, is_signer)
        };
        let r = vec![meta];
        assert(r@ =~= seq![meta]);
        r
    }

    /// The one buffer behind the handle.
    pub fn to_account_infos(&self) -> (r: Vec<AccountInfo>)
        ensures
            r@.len() == 1,
            r@[0].same_as(&self.info_spec()),
    {
        let mut r: Vec<AccountInfo> = Vec::new();
        r.push(self.info.clone_info());
        r
    }

    /// The buffer behind the handle.
    pub fn as_ref(&self) -> (r: &AccountInfo)
        ensures
            *r == self.info_spec(),
    {
        &self.info
    }

    /// The buffer behind the handle, for a change made outside the record,
    /// as a call into another program makes. The record is not re-read.
    pub fn as_mut(&mut self) -> (r: &mut AccountInfo)
        ensures
            *r == old(self).info_spec(),
            final(self).info_spec() == *final(r),
            final(self).value() == old(self).value(),
    {
        &mut self.info
    }

    /// The decoded record.
    pub fn deref(&self) -> (r: &T)
        ensures
            *r == self.value(),
    {
        &self.account
    }

    /// The decoded record, for mutation. Fails if the account is not
    /// writable, since a change there could never be written back.
    pub fn deref_mut(&mut self) -> (r: Result<&mut T, ErrorCode>)
        ensures
            old(self).info_spec().is_writable <==> r is Ok,
            !old(self).info_spec().is_writable ==> r == Err::<&mut T, ErrorCode>(ErrorCode::AccountNotMutable)
                && *final(self) == *old(self),
            r matches Ok(m) ==> *m == old(self).value() && final(self).value() == *final(m)
                && final(self).info_spec() == old(self).info_spec(),
    {
        if !self.info.is_writable {
            return Err(ErrorCode::AccountNotMutable);
        }
        Ok(&mut self.account)
    }

    /// The address of the account.
    pub fn key(&self) -> (r: Pubkey)
        ensures
            r == self.info_spec().key,
    {
        self.info.key
    }
}

/// An uninitialized account yields no handle, whichever decoding is used.
pub proof fn lemma_uninitialized_rejected<T: AccountData>(info: &AccountInfo)
    requires
        is_uninitialized(info),
    ensures
        construct_outcome(info, decode_spec::<T>(info.data@)) == Err::<T, ErrorCode>(
            ErrorCode::AccountNotInitialized,
        ),
        construct_outcome(info, decode_unchecked_spec::<T>(info.data@)) == Err::<T, ErrorCode>(
            ErrorCode::AccountNotInitialized,
        ),
{
}

/// A readable, initialized account whose bytes do not open with the
/// discriminator of `T` is refused by the checked construction with a
/// discriminator mismatch; the unchecked construction still yields whatever
/// the bytes after the discriminator's place parse as.
pub proof fn lemma_foreign_discriminator<T: AccountData>(info: &AccountInfo)
    requires
        !is_uninitialized(info),
        info.can_borrow(),
        !has_discriminator::<T>(info.data@),
    ensures
        construct_outcome(info, decode_spec::<T>(info.data@)) == Err::<T, ErrorCode>(
            ErrorCode::AccountDiscriminatorMismatch,
        ),
        info.data@.len() >= T::discriminator_spec().len() ==> match T::parse_fields_spec(
            info.data@.subrange(T::discriminator_spec().len() as int, info.data@.len() as int),
        ) {
            Some(v) => construct_outcome(info, decode_unchecked_spec::<T>(info.data@)) == Ok::<
                T,
                ErrorCode,
            >(v),
            None => construct_outcome(info, decode_unchecked_spec::<T>(info.data@)) == Err::<
                T,
                ErrorCode,
            >(ErrorCode::AccountDidNotDeserialize),
        },
{
}

/// When the running program owns the account, the buffer can be written and
/// is large enough, the write-back succeeds and the buffer then decodes to
/// the record that was written.
pub proof fn lemma_write_back_reads_back<T: AccountData>(
    info: &AccountInfo,
    v: T,
    program_id: Seq<u8>,
)
    requires
        info.owner@ == program_id,
        info.can_borrow_mut(),
        encode_spec(v).len() <= info.data@.len(),
    ensures
        exit_outcome(info, v, program_id).0 == Ok::<(), ErrorCode>(()),
        decode_spec::<T>(exit_outcome(info, v, program_id).1) == Ok::<T, ErrorCode>(v),
{
    let enc = encode_spec(v);
    let rest = info.data@.subrange(enc.len() as int, info.data@.len() as int);
    lemma_round_trip_with_trailing(v, rest);
}

/// When another program owns the account, the write-back succeeds and leaves
/// every byte as it was.
pub proof fn lemma_foreign_owner_untouched<T: AccountData>(
    info: &AccountInfo,
    v: T,
    program_id: Seq<u8>,
)
    requires
        info.owner@ != program_id,
    ensures
        exit_outcome(info, v, program_id) == (Ok::<(), ErrorCode>(()), info.data@),
{
}

/// While an exclusive borrow is outstanding, neither another exclusive borrow
/// nor a shared one can be taken, and a handle cannot be built.
pub proof fn lemma_exclusive_borrow_excludes<T: AccountData>(info: &AccountInfo)
    requires
        info.mut_borrowed_spec(),
    ensures
        !info.can_borrow_mut(),
        !info.can_borrow(),
        !is_uninitialized(info) ==> construct_outcome(info, decode_spec::<T>(info.data@)) == Err::<
            T,
            ErrorCode,
        >(ErrorCode::AccountBorrowFailed),
{
}

} // verus!
