//! The purchase orchestrator: entry point, the two continuation steps, and
//! the read accessors, together with the plain-value types that stand for
//! the runtime's call context, asynchronous results, and scheduled actions.
//!
//! Each step runs to completion and returns the action the runtime is to
//! perform next; the runtime delivers the action's result to the scheduled
//! continuation as a `PromiseOutcome`. The contracts say, for every caller
//! and every outcome, what each step decides and what it leaves in the
//! contract state.

use vstd::prelude::*;
use crate::store::RecordStore;

verus! {

/// Why a step of the purchase saga, or a guarded accessor, refused to go on.
#[derive(Clone, Copy, Debug, PartialEq, Eq, Structural)]
pub enum SagaError {
    /// The contract state was already created; initialization runs once.
    AlreadyInitialized,
    /// A step reserved to the contract's own identity was called by someone else.
    AccessDenied,
    /// A continuation expected exactly one prior asynchronous result.
    WrongResultCount,
    /// The remote authorization call failed before producing a payload.
    CallFailed,
    /// The remote authorization payload was not the boolean `true`.
    NotAuthorized,
}

/// The identities the runtime attaches to one invocation: the account the
/// contract runs as, the account that called it, and the account that signed
/// the outermost transaction.
pub struct CallContext {
    pub current: String,
    pub predecessor: String,
    pub signer: String,
}

/// The result slot of a prior asynchronous call, as the runtime reports it
/// to the scheduled continuation.
pub enum PromiseOutcome {
    /// The prior call has not finished; the runtime never delivers this to a
    /// continuation that was scheduled after it.
    NotReady,
    /// The prior call finished and returned this payload.
    Successful(Vec<u8>),
    /// The prior call failed before producing a payload.
    Failed,
}

/// A continuation to schedule on the contract's own account once the call it
/// follows has a result: one of the two callback steps, with the purchase
/// strings passed through unchanged.
pub struct ContinuationCall {
    pub target: String,
    pub shipping: String,
    pub option: String,
    pub deposit: u128,
    pub gas: u64,
}

/// The outgoing authorization call: ask `target`'s allow-list whether
/// `subject` may buy.
pub struct AuthCall {
    pub target: String,
    pub subject: String,
    pub deposit: u128,
    pub gas: u64,
}

/// What `buy` schedules: the authorization call, and the callback step as
/// its continuation.
pub struct BuyAction {
    pub call: AuthCall,
    pub continuation: ContinuationCall,
}

/// What an authorized purchase issues: a transfer of `amount` to `receiver`,
/// and the record-write step as its continuation.
pub struct PaymentAction {
    pub receiver: String,
    pub amount: u128,
    pub continuation: ContinuationCall,
}

/// The consumed interface of the external allow-list service: the remote end
/// of the call `buy` schedules. The runtime carries the call; no type here
/// implements it.
pub trait ExtWhitelist {
    /// Whether `account_id` may buy.
    fn is_whitelisted(&mut self, account_id: String) -> bool;
}

/// The wire interface of the record-write step, as the payment transfer's
/// continuation names it. `StatusMessage::add_info` realizes it with the
/// runtime-supplied call context and result slot made explicit.
pub trait ExtAddinfo {
    /// Record the buyer's destination and option once the transfer succeeded.
    fn add_info(&mut self, shipping: String, option: String) -> bool;
}

/// The wire interface of the authorization callback, as `buy`'s continuation
/// names it. `StatusMessage::is_whitelisted_callback` realizes it with the
/// runtime-supplied call context and result slot made explicit.
pub trait ExtSelf {
    /// Decide on the allow-list answer and issue the payment when it is `true`.
    fn is_whitelisted_callback(&mut self, shipping: String, option: String) -> bool;
}

/// Compute budget reserved for the continuation of the authorization call.
pub const GAS_FOR_CALLBACK: u64 = 150_000_000_000_000;

/// Compute budget attached to the outgoing authorization call.
pub const GAS_FOR_TRANSFER_CALL: u64 = 60_000_000_000_000;

/// The account of the external allow-list service; fixed at build time.
pub open spec fn whitelist_account() -> Seq<char> {
    "may17-3.testnet"@
}

/// The fixed account the authorization call is sent to.
pub fn get_whitelist_contract() -> (r: String)
    ensures
        r@ == whitelist_account(),
{
    let s: String = String::from_str("may17-3.testnet");
    s
}

/// What decoding the authorization payload as a JSON boolean yields: `Some`
/// with the boolean when the bytes are a well-formed JSON boolean, `None`
/// otherwise.
pub uninterp spec fn json_bool_of(bytes: Seq<u8>) -> Option<bool>;

/// Relies on serde_json::from_slice::<bool>: whether the payload decodes as
/// a JSON boolean, and as which one, depends on the bytes alone.
#[verifier::external_body]
fn parse_json_bool(bytes: &Vec<u8>) -> (r: Option<bool>)
    ensures
        r == json_bool_of(bytes@),
{
    serde_json::from_slice::<bool>(bytes).ok()
}

/// Whether the single expected prior result succeeded; an error when the
/// result count is not exactly one.
fn is_promise_success(results: &Vec<PromiseOutcome>) -> (r: Result<bool, SagaError>)
    ensures
        results@.len() != 1 ==> r == Err::<bool, SagaError>(SagaError::WrongResultCount),
        results@.len() == 1 ==> r == Ok::<bool, SagaError>(results@[0] is Successful),
{
    if results.len() != 1 {
        return Err(SagaError::WrongResultCount);
    }
    match &results[0] {
        PromiseOutcome::Successful(_) => Ok(true),
        _ => Ok(false),
    }
}

/// The contract state: who is paid, how much, and what completed purchases
/// have recorded.
pub struct StatusMessage {
    pub owner_id: String,
    pub price: u128,
    pub records: RecordStore,
}

impl StatusMessage {
    /// Create the contract state. Refused when state already exists, and
    /// when anyone but the contract's own account asks for it.
    pub fn new(owner_id: String, price: u128, ctx: &CallContext, state_exists: bool) -> (r:
        Result<StatusMessage, SagaError>)
        ensures
            state_exists ==> r == Err::<StatusMessage, SagaError>(SagaError::AlreadyInitialized),
            !state_exists && ctx.predecessor@ != ctx.current@ ==> r == Err::<
                StatusMessage,
                SagaError,
            >(SagaError::AccessDenied),
            !state_exists && ctx.predecessor@ == ctx.current@ ==> (r matches Ok(s)
                && s.records.wf() && s.owner_id@ == owner_id@ && s.price == price
                && s.records.options() == Map::<Seq<char>, Seq<char>>::empty()
                && s.records.shipping() == Map::<Seq<char>, Seq<char>>::empty()),
    {
        if state_exists {
            return Err(SagaError::AlreadyInitialized);
        }
        if !(ctx.predecessor == ctx.current) {
            return Err(SagaError::AccessDenied);
        }
        Ok(StatusMessage { owner_id, price, records: RecordStore::new() })
    }

    /// Entry point of the purchase saga. Decides nothing itself: it
    /// schedules the remote allow-list query for the signer of the
    /// transaction, with the callback step as its continuation and the
    /// purchase strings passed through unchanged. The state is untouched,
    /// and the continuation's budget strictly exceeds the call's.
    pub fn buy(&mut self, shipping: String, option: String, ctx: &CallContext) -> (action:
        BuyAction)
        ensures
            *final(self) == *old(self),
            action.call.target@ == whitelist_account(),
            action.call.subject@ == ctx.signer@,
            action.call.deposit == 0,
            action.call.gas == GAS_FOR_TRANSFER_CALL,
            action.continuation.target@ == ctx.current@,
            action.continuation.shipping@ == shipping@,
            action.continuation.option@ == option@,
            action.continuation.deposit == 0,
            action.continuation.gas == GAS_FOR_CALLBACK,
            action.continuation.gas > action.call.gas,
    {
        BuyAction {
            call: AuthCall {
                target: get_whitelist_contract(),
                subject: ctx.signer.clone(),
                deposit: 0,
                gas: GAS_FOR_TRANSFER_CALL,
            },
            continuation: ContinuationCall {
                target: ctx.current.clone(),
                shipping,
                option,
                deposit: 0,
                gas: GAS_FOR_CALLBACK,
            },
        }
    }

    /// The decision the callback step takes once the authorization payload
    /// is decoded. Anything but the boolean `true` is refused and nothing
    /// further is scheduled; `true` issues exactly one transfer of `price`
    /// to the organizer, with the record-write step as its continuation.
    pub fn decide_authorization(&self, decoded: Option<bool>, shipping: String, option: String,
        ctx: &CallContext) -> (r: Result<(bool, PaymentAction), SagaError>)
        ensures
            decoded != Some(true) ==> r == Err::<(bool, PaymentAction), SagaError>(
                SagaError::NotAuthorized,
            ),
            decoded == Some(true) ==> (r matches Ok((b, act)) && b == true && act.receiver@
                == self.owner_id@ && act.amount == self.price && act.continuation.target@
                == ctx.current@ && act.continuation.shipping@ == shipping@
                && act.continuation.option@ == option@ && act.continuation.deposit == 0
                && act.continuation.gas == GAS_FOR_TRANSFER_CALL),
    {
        match decoded {
            Some(true) => Ok(
                (
                    true,
                    PaymentAction {
                        receiver: self.owner_id.clone(),
                        amount: self.price,
                        continuation: ContinuationCall {
                            target: ctx.current.clone(),
                            shipping,
                            option,
                            deposit: 0,
                            gas: GAS_FOR_TRANSFER_CALL,
                        },
                    },
                ),
            ),
            _ => Err(SagaError::NotAuthorized),
        }
    }

    /// Continuation of the authorization call. Reachable only as the
    /// contract's own scheduled continuation; expects exactly one prior
    /// result. A failed call, or a payload that is not the JSON boolean
    /// `true`, ends the saga with no payment and no state change. Only
    /// `true` issues the payment, and the state is never mutated here.
    pub fn is_whitelisted_callback(&mut self, shipping: String, option: String,
        ctx: &CallContext, results: &Vec<PromiseOutcome>) -> (r: Result<
        (bool, PaymentAction),
        SagaError,
    >)
        requires
            results@.len() == 1 ==> !(results@[0] is NotReady),
        ensures
            *final(self) == *old(self),
            ctx.predecessor@ != ctx.current@ ==> r == Err::<(bool, PaymentAction), SagaError>(
                SagaError::AccessDenied,
            ),
            ctx.predecessor@ == ctx.current@ && results@.len() != 1 ==> r == Err::<
                (bool, PaymentAction),
                SagaError,
            >(SagaError::WrongResultCount),
            ctx.predecessor@ == ctx.current@ && results@.len() == 1 && results@[0] is Failed ==> r
                == Err::<(bool, PaymentAction), SagaError>(SagaError::CallFailed),
            ctx.predecessor@ == ctx.current@ && results@.len() == 1 && (results@[0] matches
                PromiseOutcome::Successful(v) && json_bool_of(v@) != Some(true)) ==> r == Err::<
                (bool, PaymentAction),
                SagaError,
            >(SagaError::NotAuthorized),
            ctx.predecessor@ == ctx.current@ && results@.len() == 1 && (results@[0] matches
                PromiseOutcome::Successful(v) && json_bool_of(v@) == Some(true)) ==> (r matches Ok(
                (b, act),
            ) && b == true && act.receiver@ == old(self).owner_id@ && act.amount == old(
                self,
            ).price && act.continuation.target@ == ctx.current@ && act.continuation.shipping@
                == shipping@ && act.continuation.option@ == option@ && act.continuation.deposit
                == 0 && act.continuation.gas == GAS_FOR_TRANSFER_CALL),
    {
        if !(ctx.predecessor == ctx.current) {
            return Err(SagaError::AccessDenied);
        }
        if results.len() != 1 {
            return Err(SagaError::WrongResultCount);
        }
        match &results[0] {
            PromiseOutcome::NotReady => {
                // ruled out by the precondition: a continuation runs only
                // once its triggering call's result is available
                proof {
                    assert(false);
                }
                Err(SagaError::CallFailed)
            },
            PromiseOutcome::Failed => Err(SagaError::CallFailed),
            PromiseOutcome::Successful(v) => {
                let decoded = parse_json_bool(v);
                self.decide_authorization(decoded, shipping, option, ctx)
            },
        }
    }

    /// Continuation of the payment transfer: the record-write step.
    /// Reachable only as the contract's own scheduled continuation; expects
    /// exactly one prior result. When the transfer succeeded, both strings
    /// are recorded under the signer of the outermost transaction,
    /// overwriting that buyer's earlier record; when it failed, nothing is
    /// written and `false` comes back.
    pub fn add_info(&mut self, shipping: String, option: String, ctx: &CallContext,
        results: &Vec<PromiseOutcome>) -> (r: Result<bool, SagaError>)
        requires
            old(self).records.wf(),
        ensures
            final(self).records.wf(),
            final(self).owner_id@ == old(self).owner_id@,
            final(self).price == old(self).price,
            ctx.predecessor@ != ctx.current@ ==> r == Err::<bool, SagaError>(
                SagaError::AccessDenied,
            ) && *final(self) == *old(self),
            ctx.predecessor@ == ctx.current@ && results@.len() != 1 ==> r == Err::<
                bool,
                SagaError,
            >(SagaError::WrongResultCount) && *final(self) == *old(self),
            ctx.predecessor@ == ctx.current@ && results@.len() == 1 && results@[0] is Successful
                ==> r == Ok::<bool, SagaError>(true) && final(self).records.options() == old(
                self,
            ).records.options().insert(ctx.signer@, option@) && final(self).records.shipping()
                == old(self).records.shipping().insert(ctx.signer@, shipping@),
            ctx.predecessor@ == ctx.current@ && results@.len() == 1 && !(results@[0]
                is Successful) ==> r == Ok::<bool, SagaError>(false) && *final(self) == *old(self),
    {
        if !(ctx.predecessor == ctx.current) {
            return Err(SagaError::AccessDenied);
        }
        let transfer_succeeded = match is_promise_success(results) {
            Ok(b) => b,
            Err(e) => {
                return Err(e);
            },
        };
        if transfer_succeeded {
            self.records.insert(&ctx.signer, shipping, option);
            Ok(true)
        } else {
            Ok(false)
        }
    }

    /// The recorded order option of `account_id`: open to every caller, and
    /// exactly what the store holds — `None` for an identity never recorded.
    pub fn get_option(&self, account_id: String) -> (r: Option<String>)
        requires
            self.records.wf(),
        ensures
            match r {
                Some(v) => self.records.options().dom().contains(account_id@) && v@
                    == self.records.options()[account_id@],
                None => !self.records.options().dom().contains(account_id@),
            },
    {
        self.records.get_option(&account_id)
    }

    /// The recorded delivery destination of `account_id`: refused for every
    /// caller but the contract's own identity; otherwise exactly what the
    /// store holds.
    pub fn get_shipping(&self, account_id: String, ctx: &CallContext) -> (r: Result<
        Option<String>,
        SagaError,
    >)
        requires
            self.records.wf(),
        ensures
            ctx.predecessor@ != ctx.current@ ==> r == Err::<Option<String>, SagaError>(
                SagaError::AccessDenied,
            ),
            ctx.predecessor@ == ctx.current@ ==> (r matches Ok(v) && match v {
                Some(s) => self.records.shipping().dom().contains(account_id@) && s@
                    == self.records.shipping()[account_id@],
                None => !self.records.shipping().dom().contains(account_id@),
            }),
    {
        if !(ctx.predecessor == ctx.current) {
            return Err(SagaError::AccessDenied);
        }
        Ok(self.records.get_shipping(&account_id))
    }
}

} // verus!
