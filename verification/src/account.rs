//! The plain values that pass between the host and the library: accounts as
//! the host hands them in, and the steps that the library hands back.

use crate::address::Address;
use crate::errors::{CustomError, FundError};
use vstd::prelude::*;

verus! {

impl DeepView for Address {
    type V = Seq<u8>;

    open spec fn deep_view(&self) -> Seq<u8> {
        self@
    }
}

/// An account as an operation sees it.
#[derive(Debug, Clone, PartialEq, Eq)]
pub struct Account {
    /// The account's address.
    pub key: Address,
    /// The program that owns the account.
    pub owner: Address,
    /// The balance that backs the account's storage.
    pub lamports: u64,
    /// The bytes the account stores; empty while the account does not exist.
    pub data: Vec<u8>,
    /// Whether the account's key signed the request.
    pub is_signer: bool,
}

/// What the host reads from the ledger before an operation starts.
#[derive(Debug, Clone, Copy, PartialEq, Eq)]
pub struct Sysvars {
    /// The ledger's clock, in seconds.
    pub unix_timestamp: i64,
    /// The balance that keeps the record this operation creates: a fund
    /// record of the space that its name asks for, or a redemption record.
    pub rent_record: u64,
    /// The balance that keeps a share mint.
    pub rent_mint: u64,
    /// The balance that keeps an account without data.
    pub rent_empty: u64,
}

/// How an instruction uses one account.
#[derive(Debug, Clone, Copy, PartialEq, Eq)]
pub struct AccountMeta {
    pub pubkey: Address,
    pub is_signer: bool,
    pub is_writable: bool,
}

/// An [`AccountMeta`] over bytes.
pub struct AccountMetaView {
    pub pubkey: Seq<u8>,
    pub is_signer: bool,
    pub is_writable: bool,
}

impl View for AccountMeta {
    type V = AccountMetaView;

    open spec fn view(&self) -> AccountMetaView {
        AccountMetaView {
            pubkey: self.pubkey@,
            is_signer: self.is_signer,
            is_writable: self.is_writable,
        }
    }
}

impl DeepView for AccountMeta {
    type V = AccountMetaView;

    open spec fn deep_view(&self) -> AccountMetaView {
        self@
    }
}

impl AccountMeta {
    /// The use of an account by an instruction.
    pub fn new(pubkey: Address, is_signer: bool, is_writable: bool) -> (r: AccountMeta)
        ensures
            r.pubkey == pubkey,
            r.is_signer == is_signer,
            r.is_writable == is_writable,
    {
        AccountMeta { pubkey, is_signer, is_writable }
    }
}

/// An account that an instruction may change.
pub open spec fn writable(pubkey: Seq<u8>, is_signer: bool) -> AccountMetaView {
    AccountMetaView { pubkey, is_signer, is_writable: true }
}

/// An account that an instruction only reads.
pub open spec fn readonly(pubkey: Seq<u8>, is_signer: bool) -> AccountMetaView {
    AccountMetaView { pubkey, is_signer, is_writable: false }
}

/// A call of another program.
#[derive(Debug, Clone, PartialEq, Eq)]
pub struct Instruction {
    /// The program to call.
    pub program_id: Address,
    /// The accounts the call uses, in the order the program expects.
    pub accounts: Vec<AccountMeta>,
    /// The request, in the program's own encoding.
    pub data: Vec<u8>,
}

/// An [`Instruction`] over bytes.
pub struct InstructionView {
    pub program_id: Seq<u8>,
    pub accounts: Seq<AccountMetaView>,
    pub data: Seq<u8>,
}

impl View for Instruction {
    type V = InstructionView;

    open spec fn view(&self) -> InstructionView {
        InstructionView {
            program_id: self.program_id@,
            accounts: self.accounts.deep_view(),
            data: self.data@,
        }
    }
}

impl Instruction {
    /// A call of `program_id` with these accounts and this request.
    pub fn new(program_id: Address, accounts: Vec<AccountMeta>, data: Vec<u8>) -> (r: Instruction)
        ensures
            r.program_id == program_id,
            r.accounts == accounts,
            r.data == data,
    {
        Instruction { program_id, accounts, data }
    }
}

/// One thing the host does to carry out an operation. The steps of an
/// operation are carried out in order, and all of them or none.
#[derive(Debug, Clone, PartialEq, Eq)]
pub enum Step {
    /// Call another program with these accounts. Where `signer_seeds` is not
    /// empty, the program signs the call for the address that the seeds
    /// derive.
    Invoke { instruction: Instruction, accounts: Vec<Address>, signer_seeds: Vec<Vec<u8>> },
    /// Write these bytes at the start of the account's data.
    Store { account: Address, data: Vec<u8> },
    /// Retire the account: move `lamports` of its balance to the recipient,
    /// shrink its data to nothing and hand it to a new owner.
    Release { account: Address, recipient: Address, lamports: u64, owner: Address },
}

/// A [`Step`] over bytes.
pub enum StepView {
    Invoke { instruction: InstructionView, accounts: Seq<Seq<u8>>, signer_seeds: Seq<Seq<u8>> },
    Store { account: Seq<u8>, data: Seq<u8> },
    Release { account: Seq<u8>, recipient: Seq<u8>, lamports: u64, owner: Seq<u8> },
}

impl View for Step {
    type V = StepView;

    open spec fn view(&self) -> StepView {
        match self {
            Step::Invoke { instruction, accounts, signer_seeds } => StepView::Invoke {
                instruction: instruction@,
                accounts: accounts.deep_view(),
                signer_seeds: signer_seeds.deep_view(),
            },
            Step::Store { account, data } => StepView::Store { account: account@, data: data@ },
            Step::Release { account, recipient, lamports, owner } => StepView::Release {
                account: account@,
                recipient: recipient@,
                lamports: *lamports,
                owner: owner@,
            },
        }
    }
}

impl DeepView for Step {
    type V = StepView;

    open spec fn deep_view(&self) -> StepView {
        self@
    }
}

/// The steps of a plan, over bytes.
pub open spec fn plan_view(steps: Vec<Step>) -> Seq<StepView> {
    steps.deep_view()
}

/// A plan, or the error in its place, over bytes.
pub open spec fn plan_result_view(r: Result<Vec<Step>, FundError>) -> Result<
    Seq<StepView>,
    FundError,
> {
    match r {
        Ok(steps) => Ok(plan_view(steps)),
        Err(e) => Err(e),
    }
}

/// The step that calls another program.
pub open spec fn invoke_view(
    instruction: InstructionView,
    accounts: Seq<Seq<u8>>,
    signer_seeds: Seq<Seq<u8>>,
) -> StepView {
    StepView::Invoke { instruction, accounts, signer_seeds }
}

/// The step that writes a record.
pub open spec fn store_view(account: Seq<u8>, data: Seq<u8>) -> StepView {
    StepView::Store { account, data }
}

/// The step that retires an account.
pub open spec fn release_view(
    account: Seq<u8>,
    recipient: Seq<u8>,
    lamports: u64,
    owner: Seq<u8>,
) -> StepView {
    StepView::Release { account, recipient, lamports, owner }
}

/// A plan without steps.
pub fn empty_plan() -> (r: Vec<Step>)
    ensures
        plan_view(r) == Seq::<StepView>::empty(),
{
    let r: Vec<Step> = Vec::new();
    assert(r.deep_view() =~= Seq::<StepView>::empty());
    r
}

/// Adds a step at the end of a plan.
pub fn push_step(plan: &mut Vec<Step>, step: Step)
    ensures
        plan_view(*final(plan)) == plan_view(*old(plan)).push(step@),
{
    plan.push(step);
    assert(plan.deep_view() =~= old(plan).deep_view().push(step@));
}

/// A list of account keys without entries.
pub fn no_keys() -> (r: Vec<Address>)
    ensures
        r.deep_view() == Seq::<Seq<u8>>::empty(),
{
    let r: Vec<Address> = Vec::new();
    assert(r.deep_view() =~= Seq::<Seq<u8>>::empty());
    r
}

/// Adds a key at the end of a list of account keys.
pub fn push_key(keys: &mut Vec<Address>, key: Address)
    ensures
        final(keys).deep_view() == old(keys).deep_view().push(key@),
{
    keys.push(key);
    assert(keys.deep_view() =~= old(keys).deep_view().push(key@));
}

/// Seeds for a call that the program does not sign.
pub fn no_seeds() -> (r: Vec<Vec<u8>>)
    ensures
        r.deep_view() == Seq::<Seq<u8>>::empty(),
{
    let r: Vec<Vec<u8>> = Vec::new();
    assert(r.deep_view() =~= Seq::<Seq<u8>>::empty());
    r
}

/// An [`Account`] as a mathematical value.
pub struct AccountView {
    pub key: Seq<u8>,
    pub owner: Seq<u8>,
    pub lamports: u64,
    pub data: Seq<u8>,
    pub is_signer: bool,
}

impl View for Account {
    type V = AccountView;

    open spec fn view(&self) -> AccountView {
        AccountView {
            key: self.key@,
            owner: self.owner@,
            lamports: self.lamports,
            data: self.data@,
            is_signer: self.is_signer,
        }
    }
}

/// Account data once bytes have been written at its start.
pub open spec fn written(data: Seq<u8>, bytes: Seq<u8>) -> Seq<u8> {
    bytes + data.skip(bytes.len() as int)
}

/// An account once a step has been carried out, as far as the step is this
/// program's own doing. A call of another program changes what that program
/// changes, which is not told here. A record is written into the account it
/// names, and does not fit where the account is smaller (`BorshIoError`). A
/// retired account gives up the balance named, loses its data and gets its
/// new owner; the recipient gets the balance. A balance that would leave the
/// 64-bit range is an `ArithmeticError`.
pub open spec fn after_step(account: AccountView, step: StepView) -> Result<
    AccountView,
    FundError,
> {
    match step {
        StepView::Invoke { .. } => Ok(account),
        StepView::Store { account: target, data } => {
            if target != account.key {
                Ok(account)
            } else if data.len() > account.data.len() {
                Err(FundError::BorshIoError)
            } else {
                Ok(AccountView { data: written(account.data, data), ..account })
            }
        },
        StepView::Release { account: target, recipient, lamports, owner } => {
            if target == account.key {
                if lamports > account.lamports {
                    Err(FundError::Custom(CustomError::ArithmeticError))
                } else {
                    Ok(
                        AccountView {
                            lamports: (account.lamports - lamports) as u64,
                            data: Seq::<u8>::empty(),
                            owner,
                            ..account
                        },
                    )
                }
            } else if recipient == account.key {
                if account.lamports + lamports > u64::MAX {
                    Err(FundError::Custom(CustomError::ArithmeticError))
                } else {
                    Ok(AccountView { lamports: (account.lamports + lamports) as u64, ..account })
                }
            } else {
                Ok(account)
            }
        },
    }
}

/// Bytes written into an account of their own length are the account's data.
pub proof fn lemma_written_fills(data: Seq<u8>, bytes: Seq<u8>)
    requires
        data.len() == bytes.len(),
    ensures
        written(data, bytes) == bytes,
{
    assert(written(data, bytes) =~= bytes);
}

impl Account {
    /// Carries out on this account what a step does to it by this program's
    /// own doing: the writing of a record, and the retiring of an account.
    /// On an error the account is as it was.
    pub fn carry_out(&mut self, step: &Step) -> (r: Result<(), FundError>)
        ensures
            match after_step(old(self)@, step@) {
                Ok(after) => r is Ok && final(self)@ == after,
                Err(e) => r == Err::<(), FundError>(e) && *final(self) == *old(self),
            },
    {
        match step {
            Step::Invoke { .. } => Ok(()),
            Step::Store { account, data } => {
                if !account.same(&self.key) {
                    return Ok(());
                }
                let len = self.data.len();
                if data.len() > len {
                    return Err(FundError::BorshIoError);
                }
                let mut stored: Vec<u8> = Vec::new();
                let mut i: usize = 0;
                while i < len
                    invariant
                        i <= len,
                        len == self.data@.len(),
                        data@.len() <= len,
                        stored@ == written(self.data@, data@).subrange(0, i as int),
                    decreases len - i,
                {
                    if i < data.len() {
                        stored.push(data[i]);
                    } else {
                        stored.push(self.data[i]);
                    }
                    i += 1;
                    assert(stored@ =~= written(self.data@, data@).subrange(0, i as int));
                }
                assert(stored@ =~= written(self.data@, data@));
                self.data = stored;
                Ok(())
            },
            Step::Release { account, recipient, lamports, owner } => {
                if account.same(&self.key) {
                    if *lamports > self.lamports {
                        return Err(FundError::Custom(CustomError::ArithmeticError));
                    }
                    self.lamports = self.lamports - *lamports;
                    self.data = Vec::new();
                    self.owner = *owner;
                    Ok(())
                } else if recipient.same(&self.key) {
                    match self.lamports.checked_add(*lamports) {
                        Some(sum) => {
                            self.lamports = sum;
                            Ok(())
                        },
                        None => Err(FundError::Custom(CustomError::ArithmeticError)),
                    }
                } else {
                    Ok(())
                }
            },
        }
    }
}

} // verus!
