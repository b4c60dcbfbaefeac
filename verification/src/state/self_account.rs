//! The oracle's own account on the EVM side: registered at most once.
use vstd::prelude::*;
use crate::did::{H160, Transaction};
use crate::error::{Error, Result};
use crate::state::contract::Reply;

verus! {

/// The account once it is registered.
#[derive(Debug, Clone, PartialEq, Eq)]
pub struct Account {
    /// The key that signs for the account.
    pub signing_key: Vec<u8>,
    /// The address of the account.
    pub address: H160,
}

/// Whether two accounts, or their absence, hold the same key and address.
pub open spec fn same_account(a: Option<Account>, b: Option<Account>) -> bool {
    match (a, b) {
        (Some(x), Some(y)) => x.signing_key@ == y.signing_key@ && x.address == y.address,
        (None, None) => true,
        _ => false,
    }
}

/// Whether a registration may be submitted: not when an account is stored.
pub open spec fn register_request(account: Option<Account>) -> Result<()> {
    match account {
        Some(stored) => Err(Error::AlreadyRegistered(stored.address)),
        None => Ok(()),
    }
}

/// What a caller is told once the EVM side answered a registration.
pub open spec fn registered_result(account: Option<Account>, reply: Reply<()>) -> Result<()> {
    match reply {
        Err(text) => Err(Error::RemoteCallFailed(text)),
        Ok(_) => register_request(account),
    }
}

/// The stored account once the EVM side answered a registration: the new
/// account if the answer was good and none was stored, the old state
/// otherwise.
pub open spec fn account_after(
    account: Option<Account>,
    sender: H160,
    signing_key: Vec<u8>,
    reply: Reply<()>,
) -> Option<Account> {
    if reply is Ok && account is None {
        Some(Account { signing_key, address: sender })
    } else {
        account
    }
}

/// A stored account is never replaced: whatever is answered to a later
/// registration, the account stays and the caller is refused.
pub proof fn lemma_account_is_kept(
    stored: Account,
    sender: H160,
    signing_key: Vec<u8>,
    reply: Reply<()>,
)
    ensures
        account_after(Some(stored), sender, signing_key, reply) == Some(stored),
        register_request(Some(stored)) == Err::<(), Error>(
            Error::AlreadyRegistered(stored.address),
        ),
        registered_result(Some(stored), reply) is Err,
{
}

/// A good answer to the first registration stores the sender of the
/// transaction, and every registration after it is refused with that address.
pub proof fn lemma_registers_once(sender: H160, signing_key: Vec<u8>)
    ensures
        ({
            let first = account_after(None, sender, signing_key, Ok(()));
            &&& registered_result(None, Ok(())) == Ok::<(), Error>(())
            &&& first == Some(Account { signing_key, address: sender })
            &&& register_request(first) == Err::<(), Error>(Error::AlreadyRegistered(sender))
        }),
{
}

/// The record of the oracle's own account.
#[derive(Debug, Clone, PartialEq, Eq)]
pub struct SelfAccount {
    account: Option<Account>,
}

impl View for SelfAccount {
    type V = Option<Account>;

    closed spec fn view(&self) -> Option<Account> {
        self.account
    }
}

impl SelfAccount {
    /// The record before any registration.
    pub fn new() -> (r: SelfAccount)
        ensures
            r@ is None,
    {
        SelfAccount { account: None }
    }

    /// The record as it was saved.
    pub fn from_account(account: Option<Account>) -> (r: SelfAccount)
        ensures
            r@ == account,
    {
        SelfAccount { account }
    }

    /// The stored account with its key, for saving.
    pub fn account(&self) -> (r: Option<Account>)
        ensures
            same_account(r, self@),
    {
        match &self.account {
            Some(stored) => Some(
                Account { signing_key: stored.signing_key.clone(), address: stored.address },
            ),
            None => None,
        }
    }

    /// Asks to register the account: refused once an account is stored.
    pub fn register_account(&self) -> (r: Result<()>)
        ensures
            r == register_request(self@),
    {
        match &self.account {
            Some(stored) => Err(Error::AlreadyRegistered(stored.address)),
            None => Ok(()),
        }
    }

    /// Takes the answer to the registration of `transaction`. A good answer
    /// stores the signing key with the sender of the transaction, unless an
    /// account was stored in the meantime.
    pub fn finish_register_account(
        &mut self,
        transaction: &Transaction,
        signing_key: Vec<u8>,
        reply: Reply<()>,
    ) -> (r: Result<()>)
        ensures
            final(self)@ == account_after(old(self)@, transaction.from, signing_key, reply),
            r == registered_result(old(self)@, reply),
    {
        match reply {
            Err(text) => Err(Error::RemoteCallFailed(text)),
            Ok(_) => {
                match &self.account {
                    Some(stored) => {
                        return Err(Error::AlreadyRegistered(stored.address));
                    },
                    None => {},
                }
                self.account = Some(Account { signing_key, address: transaction.from });
                Ok(())
            },
        }
    }

    /// The address of the account, once registered.
    pub fn get_account(&self) -> (r: Result<H160>)
        ensures
            r == match self@ {
                Some(stored) => Ok(stored.address),
                None => Err(Error::NotRegistered),
            },
    {
        match &self.account {
            Some(stored) => Ok(stored.address),
            None => Err(Error::NotRegistered),
        }
    }
}

} // verus!
