use vstd::prelude::*;

verus! {

// ---------------------------------------------------------------------------
// Mathematical views of the transaction data.
//
// Every executable type below has a ghost counterpart over `Seq`, so that
// contracts can speak about string contents and action order directly.
// ---------------------------------------------------------------------------

/// View of a function-call permission.
#[verifier::ext_equal]
pub ghost struct FunctionCallPermissionView {
    pub allowance: Option<u128>,
    pub receiver_id: Seq<char>,
    pub method_names: Seq<Seq<char>>,
}

/// View of an access-key permission.
#[verifier::ext_equal]
pub ghost enum AccessKeyPermissionView {
    FullAccess,
    FunctionCall(FunctionCallPermissionView),
}

/// View of an access key.
#[verifier::ext_equal]
pub ghost struct AccessKeyView {
    pub nonce: u64,
    pub permission: AccessKeyPermissionView,
}

/// View of one transaction action.
#[verifier::ext_equal]
pub ghost enum TxActionView {
    CreateAccount,
    AddKey { public_key: Seq<char>, access_key: AccessKeyView },
}

/// View of a transaction draft.
#[verifier::ext_equal]
pub ghost struct TransactionView {
    pub signer_id: Seq<char>,
    pub public_key: Seq<char>,
    pub nonce: u64,
    pub receiver_id: Seq<char>,
    pub block_hash: Seq<u8>,
    pub actions: Seq<TxActionView>,
}

/// View of a signed transaction.
#[verifier::ext_equal]
pub ghost struct SignedTransactionView {
    pub transaction: TransactionView,
    pub signature: Seq<char>,
}

// ---------------------------------------------------------------------------
// Executable types.
// ---------------------------------------------------------------------------

/// Restriction of an access key to function calls on one receiver.
/// An empty method-name list means that any method may be called.
#[derive(Debug, Clone, PartialEq, Eq)]
pub struct FunctionCallPermission {
    pub allowance: Option<u128>,
    pub receiver_id: String,
    pub method_names: Vec<String>,
}

/// Permission carried by an access key.
#[derive(Debug, Clone, PartialEq, Eq)]
pub enum AccessKeyPermission {
    FullAccess,
    FunctionCall(FunctionCallPermission),
}

/// An access key: a per-key nonce together with its permission.
#[derive(Debug, Clone, PartialEq, Eq)]
pub struct AccessKey {
    pub nonce: u64,
    pub permission: AccessKeyPermission,
}

/// One effect carried by a transaction.
#[derive(Debug, Clone, PartialEq, Eq)]
pub enum TxAction {
    CreateAccount,
    AddKey { public_key: String, access_key: AccessKey },
}

/// A transaction draft.  It is mutated only by appending to `actions`; the
/// `public_key`, `nonce` and `block_hash` fields are finalized exactly once,
/// just before signing.
#[derive(Debug, Clone, PartialEq, Eq)]
pub struct Transaction {
    pub signer_id: String,
    pub public_key: String,
    pub nonce: u64,
    pub receiver_id: String,
    pub block_hash: Vec<u8>,
    pub actions: Vec<TxAction>,
}

/// An immutable (transaction, signature) pair, ready for transmission.
/// The signature is carried in its canonical text form.
#[derive(Debug, Clone, PartialEq, Eq)]
pub struct SignedTransaction {
    pub transaction: Transaction,
    pub signature: String,
}

// ---------------------------------------------------------------------------
// Views.
// ---------------------------------------------------------------------------

impl View for FunctionCallPermission {
    type V = FunctionCallPermissionView;

    open spec fn view(&self) -> FunctionCallPermissionView {
        FunctionCallPermissionView {
            allowance: self.allowance,
            receiver_id: self.receiver_id@,
            method_names: self.method_names.deep_view(),
        }
    }
}

impl View for AccessKeyPermission {
    type V = AccessKeyPermissionView;

    open spec fn view(&self) -> AccessKeyPermissionView {
        match self {
            AccessKeyPermission::FullAccess => AccessKeyPermissionView::FullAccess,
            AccessKeyPermission::FunctionCall(p) => AccessKeyPermissionView::FunctionCall(p@),
        }
    }
}

impl View for AccessKey {
    type V = AccessKeyView;

    open spec fn view(&self) -> AccessKeyView {
        AccessKeyView { nonce: self.nonce, permission: self.permission@ }
    }
}

impl View for TxAction {
    type V = TxActionView;

    open spec fn view(&self) -> TxActionView {
        match self {
            TxAction::CreateAccount => TxActionView::CreateAccount,
            TxAction::AddKey { public_key, access_key } => TxActionView::AddKey {
                public_key: public_key@,
                access_key: access_key@,
            },
        }
    }
}

/// The sequence of action views held by a vector of actions.
pub open spec fn actions_view(v: Seq<TxAction>) -> Seq<TxActionView> {
    v.map_values(|a: TxAction| a@)
}

impl View for Transaction {
    type V = TransactionView;

    open spec fn view(&self) -> TransactionView {
        TransactionView {
            signer_id: self.signer_id@,
            public_key: self.public_key@,
            nonce: self.nonce,
            receiver_id: self.receiver_id@,
            block_hash: self.block_hash@,
            actions: actions_view(self.actions@),
        }
    }
}

impl View for SignedTransaction {
    type V = SignedTransactionView;

    open spec fn view(&self) -> SignedTransactionView {
        SignedTransactionView { transaction: self.transaction@, signature: self.signature@ }
    }
}

// ---------------------------------------------------------------------------
// The single mutation of a draft: an order-preserving append.
// ---------------------------------------------------------------------------

impl Transaction {
    /// Appends one action to the draft.  Every other field is unchanged,
    /// and no existing action is moved or removed.
    pub fn append_action(&mut self, action: TxAction)
        ensures
            final(self)@ == (TransactionView {
                actions: old(self)@.actions.push(action@),
                ..old(self)@
            }),
    {
        self.actions.push(action);
        proof {
            assert(self@.actions =~= old(self)@.actions.push(action@));
            assert(self@ =~= (TransactionView {
                actions: old(self)@.actions.push(action@),
                ..old(self)@
            }));
        }
    }
}

/// One append, as `append_action` performs it.
pub open spec fn appended(t: TransactionView, a: TxActionView) -> TransactionView {
    TransactionView { actions: t.actions.push(a), ..t }
}

/// Appending a sequence of actions one at a time, in order.
pub open spec fn appended_all(t: TransactionView, acts: Seq<TxActionView>) -> TransactionView
    decreases acts.len(),
{
    if acts.len() == 0 {
        t
    } else {
        appended_all(appended(t, acts[0]), acts.drop_first())
    }
}

/// Law: appending a sequence of actions one at a time appends exactly that
/// sequence, in order, and changes nothing else; on a draft with no actions
/// the final action sequence is the appended sequence itself, of its length.
pub proof fn lemma_appends_accumulate(t: TransactionView, acts: Seq<TxActionView>)
    ensures
        appended_all(t, acts) == (TransactionView { actions: t.actions + acts, ..t }),
        appended_all(t, acts).actions.len() == t.actions.len() + acts.len(),
        t.actions.len() == 0 ==> appended_all(t, acts).actions == acts,
    decreases acts.len(),
{
    if acts.len() == 0 {
        assert(t.actions + acts =~= t.actions);
        assert(appended_all(t, acts) =~= (TransactionView { actions: t.actions + acts, ..t }));
    } else {
        let stepped = appended(t, acts[0]);
        lemma_appends_accumulate(stepped, acts.drop_first());
        assert(stepped.actions + acts.drop_first() =~= t.actions + acts);
        assert(appended_all(t, acts) =~= (TransactionView { actions: t.actions + acts, ..t }));
        if t.actions.len() == 0 {
            assert(t.actions + acts =~= acts);
        }
    }
}

} // verus!
