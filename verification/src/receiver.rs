use vstd::prelude::*;

use crate::chain::{chain_actions, chain_signer, NextAction};
use crate::model::{Transaction, TransactionView};
use crate::sign::SignPrivateKey;

verus! {

// ---------------------------------------------------------------------------
// Choosing the receiver of the transaction, then building its action chain.
// ---------------------------------------------------------------------------

/// Receiver input as collected from the operator; a missing field is filled
/// by the surrounding interface.
pub struct CliReceiver {
    pub receiver_account_id: Option<String>,
    pub action: Option<NextAction>,
}

/// The receiver of the transaction and the chain to build for it.
pub struct Receiver {
    pub receiver_account_id: String,
    pub action: NextAction,
}

/// Where the transaction goes.
pub enum CliSendTo {
    Receiver(CliReceiver),
}

/// Where the transaction goes, fully collected.
pub enum SendTo {
    Receiver(Receiver),
}

impl Receiver {
    /// Fills each missing field from the value the surrounding interface
    /// collected for it.
    pub fn from_cli(
        item: CliReceiver,
        collected_account_id: String,
        collected_action: NextAction,
    ) -> (r: Receiver)
        ensures
            r.receiver_account_id@ == (match item.receiver_account_id {
                Some(a) => a@,
                None => collected_account_id@,
            }),
            r.action == (match item.action {
                Some(a) => a,
                None => collected_action,
            }),
    {
        let receiver_account_id = match item.receiver_account_id {
            Some(cli_receiver_account_id) => cli_receiver_account_id,
            None => collected_account_id,
        };
        let action = match item.action {
            Some(cli_next_action) => cli_next_action,
            None => collected_action,
        };
        Receiver { receiver_account_id, action }
    }

    /// Sets the draft's receiver, then appends the whole action chain, and
    /// hands back the finalized draft with the signer that ends the chain.
    pub fn process(self, prepopulated_unsigned_transaction: Transaction) -> (r: (
        Transaction,
        SignPrivateKey,
    ))
        ensures
            r.0@ == (TransactionView {
                receiver_id: self.receiver_account_id@,
                actions: prepopulated_unsigned_transaction@.actions + chain_actions(self.action),
                ..prepopulated_unsigned_transaction@
            }),
            r.1 == chain_signer(self.action),
    {
        let unsigned_transaction = Transaction {
            receiver_id: self.receiver_account_id,
            ..prepopulated_unsigned_transaction
        };
        proof {
            assert(unsigned_transaction@ =~= (TransactionView {
                receiver_id: self.receiver_account_id@,
                ..prepopulated_unsigned_transaction@
            }));
        }
        self.action.process(unsigned_transaction)
    }
}

impl SendTo {
    /// The one way a transaction is addressed: to a receiver.
    pub fn send_to(receiver: Receiver) -> (r: SendTo)
        ensures
            r == SendTo::Receiver(receiver),
    {
        SendTo::Receiver(receiver)
    }

    /// Converts collected input, filling missing receiver fields.
    pub fn from_cli(
        item: CliSendTo,
        collected_account_id: String,
        collected_action: NextAction,
    ) -> (r: SendTo)
        ensures
            item matches CliSendTo::Receiver(cli) ==> (r matches SendTo::Receiver(rec) && {
                &&& rec.receiver_account_id@ == (match cli.receiver_account_id {
                    Some(a) => a@,
                    None => collected_account_id@,
                })
                &&& rec.action == (match cli.action {
                    Some(a) => a,
                    None => collected_action,
                })
            }),
    {
        match item {
            CliSendTo::Receiver(cli_receiver) => {
                let receiver = Receiver::from_cli(
                    cli_receiver,
                    collected_account_id,
                    collected_action,
                );
                SendTo::Receiver(receiver)
            },
        }
    }

    /// Runs the chosen receiver's build.
    pub fn process(self, prepopulated_unsigned_transaction: Transaction) -> (r: (
        Transaction,
        SignPrivateKey,
    ))
        ensures
            self matches SendTo::Receiver(receiver) ==> {
                &&& r.0@ == (TransactionView {
                    receiver_id: receiver.receiver_account_id@,
                    actions: prepopulated_unsigned_transaction@.actions + chain_actions(
                        receiver.action,
                    ),
                    ..prepopulated_unsigned_transaction@
                })
                &&& r.1 == chain_signer(receiver.action)
            },
    {
        match self {
            SendTo::Receiver(receiver) => receiver.process(prepopulated_unsigned_transaction),
        }
    }
}

} // verus!
