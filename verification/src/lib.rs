//! A group-purchase checkout contract: a buyer asks to buy, an external
//! allow-list service says whether the buyer is eligible, a fixed price is
//! transferred to the organizer, and the buyer's order option and delivery
//! destination are recorded.
//!
//! The purchase is a saga of chained asynchronous steps. The runtime that
//! schedules the steps and moves the money lives outside this crate; here
//! each step is a function from the contract state and the prior step's
//! result to the next state and the action to perform, with a contract
//! stating exactly what it decides.

pub mod laws;
pub mod saga;
pub mod store;

pub use saga::AuthCall;
pub use saga::BuyAction;
pub use saga::CallContext;
pub use saga::ContinuationCall;
pub use saga::PaymentAction;
pub use saga::PromiseOutcome;
pub use saga::SagaError;
pub use saga::StatusMessage;
pub use store::RecordStore;
