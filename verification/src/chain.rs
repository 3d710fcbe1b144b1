use vstd::prelude::*;

use crate::model::{
    AccessKey, AccessKeyPermission, AccessKeyView, AccessKeyPermissionView, FunctionCallPermission,
    FunctionCallPermissionView, Transaction, TransactionView, TxAction, TxActionView,
};
use crate::sign::SignPrivateKey;
use crate::text::{parse_method_names, spec_method_names};

verus! {

// ---------------------------------------------------------------------------
// The action-chaining state machine.
//
// A draft is grown by appending one action at a time.  The continuation is a
// tagged value: `AddAction` appends one more action and carries the rest of
// the chain, `Skip` finalizes the draft and names the signer to use.  The
// whole chain is collected up front, then walked; once an action is appended
// it is never removed.
// ---------------------------------------------------------------------------

/// The next-step marker: either append one more action, or stop building and
/// hand the draft to the signer.
pub enum NextAction {
    AddAction(ActionSubcommand),
    Skip(SkipAction),
}

/// The action to append next, together with the chain that follows it.
pub enum ActionSubcommand {
    CreateAccount(Box<CreateAccountAction>),
    AddAccessKey(Box<AddAccessKeyAction>),
}

/// Ends the chain: the finalized draft goes to this signer.
pub struct SkipAction {
    pub sign_option: SignPrivateKey,
}

/// Appends a `CreateAccount` action.
pub struct CreateAccountAction {
    pub next_action: Box<NextAction>,
}

/// Appends an `AddKey` action for `public_key` with the given access-key
/// nonce and a function-call permission.
pub struct AddAccessKeyAction {
    pub public_key: String,
    pub nonce: u64,
    pub function_call: FunctionCallType,
}

/// The function-call permission to grant, together with the chain that
/// follows the append.
pub struct FunctionCallType {
    pub allowance: Option<u128>,
    pub receiver_id: String,
    pub method_names: Vec<String>,
    pub next_action: Box<NextAction>,
}

/// Create-account input as collected from the operator; a missing field is
/// filled by the surrounding interface.
pub struct CliCreateAccountAction {
    pub next_action: Option<NextAction>,
}

/// Function-call permission input as collected from the operator.  The
/// method names arrive as one raw comma-separated answer.
pub struct CliFunctionCallType {
    pub allowance: Option<u128>,
    pub receiver_id: Option<String>,
    pub method_names: Option<String>,
    pub next_action: Option<NextAction>,
}

impl CreateAccountAction {
    /// Fills a missing continuation from the value the surrounding interface
    /// collected for it.
    pub fn from_cli(item: CliCreateAccountAction, collected_next_action: NextAction) -> (r:
        CreateAccountAction)
        ensures
            *r.next_action == (match item.next_action {
                Some(n) => n,
                None => collected_next_action,
            }),
    {
        let next_action = match item.next_action {
            Some(cli_next_action) => cli_next_action,
            None => collected_next_action,
        };
        CreateAccountAction { next_action: Box::new(next_action) }
    }
}

impl FunctionCallType {
    /// Fills each missing field from the value the surrounding interface
    /// collected for it.  A given method-name answer is split at commas; an
    /// empty answer stands for "unrestricted" and stores no names at all.
    pub fn from_cli(
        item: CliFunctionCallType,
        collected_allowance: Option<u128>,
        collected_receiver_id: String,
        collected_method_names: Vec<String>,
        collected_next_action: NextAction,
    ) -> (r: FunctionCallType)
        ensures
            r.allowance == (match item.allowance {
                Some(a) => Some(a),
                None => collected_allowance,
            }),
            r.receiver_id@ == (match item.receiver_id {
                Some(id) => id@,
                None => collected_receiver_id@,
            }),
            r.method_names.deep_view() == (match item.method_names {
                Some(raw) => spec_method_names(raw@),
                None => collected_method_names.deep_view(),
            }),
            *r.next_action == (match item.next_action {
                Some(n) => n,
                None => collected_next_action,
            }),
    {
        let allowance = match item.allowance {
            Some(cli_allowance) => Some(cli_allowance),
            None => collected_allowance,
        };
        let receiver_id = match item.receiver_id {
            Some(cli_receiver_id) => cli_receiver_id,
            None => collected_receiver_id,
        };
        let method_names = match item.method_names {
            Some(cli_method_names) => parse_method_names(cli_method_names.as_str()),
            None => collected_method_names,
        };
        let next_action = match item.next_action {
            Some(cli_next_action) => cli_next_action,
            None => collected_next_action,
        };
        FunctionCallType {
            allowance,
            receiver_id,
            method_names,
            next_action: Box::new(next_action),
        }
    }
}

// ---------------------------------------------------------------------------
// What a chain appends, and which signer it ends in.
// ---------------------------------------------------------------------------

/// The sequence of actions a continuation appends, in append order.
pub open spec fn chain_actions(n: NextAction) -> Seq<TxActionView>
    decreases n,
{
    match n {
        NextAction::AddAction(sub) => subcommand_actions(sub),
        NextAction::Skip(_) => seq![],
    }
}

/// The actions appended from `sub` on: its own action first, then the rest.
pub open spec fn subcommand_actions(sub: ActionSubcommand) -> Seq<TxActionView>
    decreases sub,
{
    match sub {
        ActionSubcommand::CreateAccount(c) => seq![TxActionView::CreateAccount] + chain_actions(
            *c.next_action,
        ),
        ActionSubcommand::AddAccessKey(a) => seq![add_access_key_action_view(*a)] + chain_actions(
            *a.function_call.next_action,
        ),
    }
}

/// The `AddKey` action appended for a function-call permission.
pub open spec fn function_call_action_view(
    public_key: Seq<char>,
    nonce: u64,
    fc: FunctionCallType,
) -> TxActionView {
    TxActionView::AddKey {
        public_key,
        access_key: AccessKeyView {
            nonce,
            permission: AccessKeyPermissionView::FunctionCall(FunctionCallPermissionView {
                allowance: fc.allowance,
                receiver_id: fc.receiver_id@,
                method_names: fc.method_names.deep_view(),
            }),
        },
    }
}

/// The `AddKey` action appended by an `AddAccessKeyAction`.
pub open spec fn add_access_key_action_view(a: AddAccessKeyAction) -> TxActionView {
    function_call_action_view(a.public_key@, a.nonce, a.function_call)
}

/// The signer the chain ends in.
pub open spec fn chain_signer(n: NextAction) -> SignPrivateKey
    decreases n,
{
    match n {
        NextAction::AddAction(sub) => match sub {
            ActionSubcommand::CreateAccount(c) => chain_signer(*c.next_action),
            ActionSubcommand::AddAccessKey(a) => chain_signer(*a.function_call.next_action),
        },
        NextAction::Skip(s) => s.sign_option,
    }
}

// ---------------------------------------------------------------------------
// Walking the chain.
// ---------------------------------------------------------------------------

impl NextAction {
    /// Appends every action of the chain to the draft, in order, and returns
    /// the finalized draft together with the signer that ends the chain.
    pub fn process(self, prepopulated_unsigned_transaction: Transaction) -> (r: (
        Transaction,
        SignPrivateKey,
    ))
        ensures
            r.0@ == (TransactionView {
                actions: prepopulated_unsigned_transaction@.actions + chain_actions(self),
                ..prepopulated_unsigned_transaction@
            }),
            r.1 == chain_signer(self),
        decreases self,
    {
        match self {
            NextAction::AddAction(sub) => sub.process(prepopulated_unsigned_transaction),
            NextAction::Skip(skip_action) => {
                proof {
                    assert(prepopulated_unsigned_transaction@ =~= (TransactionView {
                        actions: prepopulated_unsigned_transaction@.actions + seq![],
                        ..prepopulated_unsigned_transaction@
                    }));
                }
                (prepopulated_unsigned_transaction, skip_action.sign_option)
            },
        }
    }
}

impl ActionSubcommand {
    /// Appends this subcommand's action and then the rest of its chain.
    pub fn process(self, prepopulated_unsigned_transaction: Transaction) -> (r: (
        Transaction,
        SignPrivateKey,
    ))
        ensures
            r.0@ == (TransactionView {
                actions: prepopulated_unsigned_transaction@.actions + subcommand_actions(self),
                ..prepopulated_unsigned_transaction@
            }),
            r.1 == chain_signer(NextAction::AddAction(self)),
        decreases self,
    {
        match self {
            ActionSubcommand::CreateAccount(c) => c.process(prepopulated_unsigned_transaction),
            ActionSubcommand::AddAccessKey(a) => a.process(prepopulated_unsigned_transaction),
        }
    }
}

impl CreateAccountAction {
    /// Appends a `CreateAccount` action and walks the rest of the chain.
    pub fn process(self, prepopulated_unsigned_transaction: Transaction) -> (r: (
        Transaction,
        SignPrivateKey,
    ))
        ensures
            r.0@ == (TransactionView {
                actions: prepopulated_unsigned_transaction@.actions + seq![
                    TxActionView::CreateAccount,
                ] + chain_actions(*self.next_action),
                ..prepopulated_unsigned_transaction@
            }),
            r.1 == chain_signer(*self.next_action),
        decreases self,
    {
        let mut unsigned_transaction = prepopulated_unsigned_transaction;
        unsigned_transaction.append_action(TxAction::CreateAccount);
        proof {
            assert(unsigned_transaction@.actions =~= prepopulated_unsigned_transaction@.actions
                + seq![TxActionView::CreateAccount]);
        }
        let r = (*self.next_action).process(unsigned_transaction);
        proof {
            assert(r.0@ =~= (TransactionView {
                actions: prepopulated_unsigned_transaction@.actions + seq![
                    TxActionView::CreateAccount,
                ] + chain_actions(*self.next_action),
                ..prepopulated_unsigned_transaction@
            }));
        }
        r
    }
}

impl FunctionCallType {
    /// Appends an `AddKey` action granting this function-call permission to
    /// `public_key`, and walks the rest of the chain.
    pub fn process(
        self,
        nonce: u64,
        prepopulated_unsigned_transaction: Transaction,
        public_key: String,
    ) -> (r: (Transaction, SignPrivateKey))
        ensures
            r.0@ == (TransactionView {
                actions: prepopulated_unsigned_transaction@.actions + seq![
                    function_call_action_view(public_key@, nonce, self),
                ] + chain_actions(*self.next_action),
                ..prepopulated_unsigned_transaction@
            }),
            r.1 == chain_signer(*self.next_action),
        decreases self,
    {
        let ghost self_view = function_call_action_view(public_key@, nonce, self);
        let FunctionCallType { allowance, receiver_id, method_names, next_action } = self;
        let access_key = AccessKey {
            nonce,
            permission: AccessKeyPermission::FunctionCall(FunctionCallPermission {
                allowance,
                receiver_id,
                method_names,
            }),
        };
        let action = TxAction::AddKey { public_key, access_key };
        let mut unsigned_transaction = prepopulated_unsigned_transaction;
        unsigned_transaction.append_action(action);
        proof {
            assert(unsigned_transaction@.actions =~= prepopulated_unsigned_transaction@.actions
                + seq![self_view]);
        }
        let r = (*next_action).process(unsigned_transaction);
        proof {
            assert(r.0@ =~= (TransactionView {
                actions: prepopulated_unsigned_transaction@.actions + seq![self_view]
                    + chain_actions(*next_action),
                ..prepopulated_unsigned_transaction@
            }));
        }
        r
    }
}

impl AddAccessKeyAction {
    /// Appends the `AddKey` action for the stored key and nonce, and walks
    /// the rest of the chain.
    pub fn process(self, prepopulated_unsigned_transaction: Transaction) -> (r: (
        Transaction,
        SignPrivateKey,
    ))
        ensures
            r.0@ == (TransactionView {
                actions: prepopulated_unsigned_transaction@.actions + seq![
                    add_access_key_action_view(self),
                ] + chain_actions(*self.function_call.next_action),
                ..prepopulated_unsigned_transaction@
            }),
            r.1 == chain_signer(*self.function_call.next_action),
        decreases self,
    {
        let AddAccessKeyAction { public_key, nonce, function_call } = self;
        function_call.process(nonce, prepopulated_unsigned_transaction, public_key)
    }
}

} // verus!
