use vstd::prelude::*;

use crate::model::{AccessKeyPermissionView, AccessKeyView, Transaction, TransactionView, TxAction,
    TxActionView, AccessKey, AccessKeyPermission};
use crate::sign::SignPrivateKey;

verus! {

// ---------------------------------------------------------------------------
// The add command: granting a full-access key to an account.
// ---------------------------------------------------------------------------

/// Sign-option input as collected from the operator; a missing field is
/// filled by the surrounding interface.
pub struct CliFullAccessType {
    pub sign_option: Option<SignPrivateKey>,
}

/// Grants an unrestricted access key, then hands the draft to the signer.
pub struct FullAccessType {
    pub sign_option: SignPrivateKey,
}

/// Add-command input as collected from the operator.
pub struct CliAddAction {
    pub action: Option<CliAction>,
}

/// The chosen add command.
pub struct AddAction {
    pub action: Action,
}

/// What to add, as collected from the operator.
pub enum CliAction {
    AccessKey(CliFullAccessType),
}

/// What to add.
pub enum Action {
    AccessKey(FullAccessType),
}

/// The `AddKey` action granting full access to `public_key`, with the given
/// access-key nonce.
pub open spec fn full_access_action_view(public_key: Seq<char>, nonce: u64) -> TxActionView {
    TxActionView::AddKey {
        public_key,
        access_key: AccessKeyView { nonce, permission: AccessKeyPermissionView::FullAccess },
    }
}

impl FullAccessType {
    /// Fills a missing sign option from the value the surrounding interface
    /// collected for it.
    pub fn from_cli(item: CliFullAccessType, collected_sign_option: SignPrivateKey) -> (r:
        FullAccessType)
        ensures
            r.sign_option == (match item.sign_option {
                Some(s) => s,
                None => collected_sign_option,
            }),
    {
        let sign_option = match item.sign_option {
            Some(cli_sign_option) => cli_sign_option,
            None => collected_sign_option,
        };
        FullAccessType { sign_option }
    }

    /// Appends the full-access `AddKey` action and hands back the draft with
    /// the signer to use.
    pub fn process(
        self,
        nonce: u64,
        prepopulated_unsigned_transaction: Transaction,
        public_key: String,
    ) -> (r: (Transaction, SignPrivateKey))
        ensures
            r.0@ == (TransactionView {
                actions: prepopulated_unsigned_transaction@.actions.push(
                    full_access_action_view(public_key@, nonce),
                ),
                ..prepopulated_unsigned_transaction@
            }),
            r.1 == self.sign_option,
    {
        let access_key = AccessKey { nonce, permission: AccessKeyPermission::FullAccess };
        let action = TxAction::AddKey { public_key, access_key };
        let mut unsigned_transaction = prepopulated_unsigned_transaction;
        unsigned_transaction.append_action(action);
        (unsigned_transaction, self.sign_option)
    }
}

impl Action {
    /// Converts collected input, filling missing fields.
    pub fn from_cli(item: CliAction, collected_sign_option: SignPrivateKey) -> (r: Action)
        ensures
            item matches CliAction::AccessKey(cli) ==> (r matches Action::AccessKey(full) && {
                full.sign_option == (match cli.sign_option {
                    Some(s) => s,
                    None => collected_sign_option,
                })
            }),
    {
        match item {
            CliAction::AccessKey(cli_full_access) => Action::AccessKey(
                FullAccessType::from_cli(cli_full_access, collected_sign_option),
            ),
        }
    }

    /// Runs the chosen add command.
    pub fn process(
        self,
        nonce: u64,
        prepopulated_unsigned_transaction: Transaction,
        public_key: String,
    ) -> (r: (Transaction, SignPrivateKey))
        ensures
            self matches Action::AccessKey(full) ==> {
                &&& r.0@ == (TransactionView {
                    actions: prepopulated_unsigned_transaction@.actions.push(
                        full_access_action_view(public_key@, nonce),
                    ),
                    ..prepopulated_unsigned_transaction@
                })
                &&& r.1 == full.sign_option
            },
    {
        match self {
            Action::AccessKey(full_access) => full_access.process(
                nonce,
                prepopulated_unsigned_transaction,
                public_key,
            ),
        }
    }
}

impl AddAction {
    /// Converts collected input: a missing command is filled from the value
    /// the surrounding interface collected, a given one is converted.
    pub fn from_cli(
        item: CliAddAction,
        collected_action: Action,
        collected_sign_option: SignPrivateKey,
    ) -> (r: AddAction)
        ensures
            item.action is None ==> r.action == collected_action,
            item.action matches Some(CliAction::AccessKey(cli)) ==> (
            r.action matches Action::AccessKey(full) && full.sign_option == (
            match cli.sign_option {
                Some(s) => s,
                None => collected_sign_option,
            })),
    {
        let action = match item.action {
            Some(cli_action) => Action::from_cli(cli_action, collected_sign_option),
            None => collected_action,
        };
        AddAction { action }
    }

    /// Runs the add command.
    pub fn process(
        self,
        nonce: u64,
        prepopulated_unsigned_transaction: Transaction,
        public_key: String,
    ) -> (r: (Transaction, SignPrivateKey))
        ensures
            self.action matches Action::AccessKey(full) ==> {
                &&& r.0@ == (TransactionView {
                    actions: prepopulated_unsigned_transaction@.actions.push(
                        full_access_action_view(public_key@, nonce),
                    ),
                    ..prepopulated_unsigned_transaction@
                })
                &&& r.1 == full.sign_option
            },
    {
        self.action.process(nonce, prepopulated_unsigned_transaction, public_key)
    }
}

} // verus!
