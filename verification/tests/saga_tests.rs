use group_buy::CallContext;
use group_buy::PromiseOutcome;
use group_buy::SagaError;
use group_buy::StatusMessage;

fn ctx(current: &str, predecessor: &str, signer: &str) -> CallContext {
    CallContext {
        current: current.to_string(),
        predecessor: predecessor.to_string(),
        signer: signer.to_string(),
    }
}

fn self_ctx(signer: &str) -> CallContext {
    ctx("contract", "contract", signer)
}

fn new_contract(price: u128) -> StatusMessage {
    StatusMessage::new("organizer".to_string(), price, &self_ctx("contract"), false).unwrap()
}

#[test]
fn init_sets_owner_and_price() {
    let s = new_contract(500);
    assert_eq!(s.owner_id, "organizer");
    assert_eq!(s.price, 500);
}

#[test]
fn init_refuses_existing_state() {
    let r = StatusMessage::new("organizer".to_string(), 500, &self_ctx("contract"), true);
    assert_eq!(r.err(), Some(SagaError::AlreadyInitialized));
}

#[test]
fn init_refuses_outside_caller() {
    let r = StatusMessage::new(
        "organizer".to_string(),
        500,
        &ctx("contract", "intruder", "intruder"),
        false,
    );
    assert_eq!(r.err(), Some(SagaError::AccessDenied));
}

#[test]
fn buy_schedules_authorization_for_the_signer() {
    let mut s = new_contract(500);
    let action = s.buy(
        "123 Main St".to_string(),
        "red".to_string(),
        &ctx("contract", "buyer1", "buyer1"),
    );
    assert_eq!(action.call.target, "may17-3.testnet");
    assert_eq!(action.call.subject, "buyer1");
    assert_eq!(action.call.deposit, 0);
    assert_eq!(action.call.gas, 60_000_000_000_000);
    assert_eq!(action.continuation.target, "contract");
    assert_eq!(action.continuation.shipping, "123 Main St");
    assert_eq!(action.continuation.option, "red");
    assert_eq!(action.continuation.deposit, 0);
    assert_eq!(action.continuation.gas, 150_000_000_000_000);
    assert!(action.continuation.gas > action.call.gas);
    // buy only schedules; nothing is recorded yet
    assert_eq!(s.get_option("buyer1".to_string()), None);
}

#[test]
fn callback_refuses_outside_caller() {
    let mut s = new_contract(500);
    let results = vec![PromiseOutcome::Successful(b"true".to_vec())];
    let r = s.is_whitelisted_callback(
        "123 Main St".to_string(),
        "red".to_string(),
        &ctx("contract", "buyer1", "buyer1"),
        &results,
    );
    assert_eq!(r.err(), Some(SagaError::AccessDenied));
    assert_eq!(s.get_option("buyer1".to_string()), None);
}

#[test]
fn callback_needs_exactly_one_result() {
    let mut s = new_contract(500);
    let none: Vec<PromiseOutcome> = vec![];
    let r = s.is_whitelisted_callback(
        "123 Main St".to_string(),
        "red".to_string(),
        &self_ctx("buyer1"),
        &none,
    );
    assert_eq!(r.err(), Some(SagaError::WrongResultCount));

    let two = vec![
        PromiseOutcome::Successful(b"true".to_vec()),
        PromiseOutcome::Successful(b"true".to_vec()),
    ];
    let r = s.is_whitelisted_callback(
        "123 Main St".to_string(),
        "red".to_string(),
        &self_ctx("buyer1"),
        &two,
    );
    assert_eq!(r.err(), Some(SagaError::WrongResultCount));
}

#[test]
fn callback_fails_closed_on_failed_call() {
    let mut s = new_contract(500);
    let results = vec![PromiseOutcome::Failed];
    let r = s.is_whitelisted_callback(
        "123 Main St".to_string(),
        "red".to_string(),
        &self_ctx("buyer1"),
        &results,
    );
    assert_eq!(r.err(), Some(SagaError::CallFailed));
    assert_eq!(s.get_option("buyer1".to_string()), None);
}

#[test]
fn callback_refuses_a_false_payload() {
    let mut s = new_contract(500);
    let results = vec![PromiseOutcome::Successful(b"false".to_vec())];
    let r = s.is_whitelisted_callback(
        "123 Main St".to_string(),
        "red".to_string(),
        &self_ctx("buyer2"),
        &results,
    );
    assert_eq!(r.err(), Some(SagaError::NotAuthorized));
    assert_eq!(s.get_option("buyer2".to_string()), None);
}

#[test]
fn callback_refuses_an_undecodable_payload() {
    let mut s = new_contract(500);
    let results = vec![PromiseOutcome::Successful(b"not json".to_vec())];
    let r = s.is_whitelisted_callback(
        "123 Main St".to_string(),
        "red".to_string(),
        &self_ctx("buyer1"),
        &results,
    );
    assert_eq!(r.err(), Some(SagaError::NotAuthorized));
}

#[test]
fn callback_pays_the_organizer_on_true() {
    let mut s = new_contract(500);
    let results = vec![PromiseOutcome::Successful(b"true".to_vec())];
    let r = s.is_whitelisted_callback(
        "123 Main St".to_string(),
        "red".to_string(),
        &self_ctx("buyer1"),
        &results,
    );
    let (decoded, pay) = r.unwrap();
    assert!(decoded);
    assert_eq!(pay.receiver, "organizer");
    assert_eq!(pay.amount, 500);
    assert_eq!(pay.continuation.target, "contract");
    assert_eq!(pay.continuation.shipping, "123 Main St");
    assert_eq!(pay.continuation.option, "red");
    assert_eq!(pay.continuation.deposit, 0);
    assert_eq!(pay.continuation.gas, 60_000_000_000_000);
    // the payment is scheduled, not yet recorded
    assert_eq!(s.get_option("buyer1".to_string()), None);
}

#[test]
fn add_info_refuses_outside_caller() {
    let mut s = new_contract(500);
    let results = vec![PromiseOutcome::Successful(vec![])];
    let r = s.add_info(
        "123 Main St".to_string(),
        "red".to_string(),
        &ctx("contract", "buyer1", "buyer1"),
        &results,
    );
    assert_eq!(r.err(), Some(SagaError::AccessDenied));
    assert_eq!(s.get_option("buyer1".to_string()), None);
}

#[test]
fn add_info_needs_exactly_one_result() {
    let mut s = new_contract(500);
    let none: Vec<PromiseOutcome> = vec![];
    let r = s.add_info(
        "123 Main St".to_string(),
        "red".to_string(),
        &self_ctx("buyer1"),
        &none,
    );
    assert_eq!(r.err(), Some(SagaError::WrongResultCount));
}

#[test]
fn add_info_records_both_strings_on_success() {
    let mut s = new_contract(500);
    let results = vec![PromiseOutcome::Successful(vec![])];
    let r = s.add_info(
        "123 Main St".to_string(),
        "red".to_string(),
        &self_ctx("buyer1"),
        &results,
    );
    assert_eq!(r, Ok(true));
    assert_eq!(s.get_option("buyer1".to_string()), Some("red".to_string()));
    let shipping = s
        .get_shipping("buyer1".to_string(), &self_ctx("contract"))
        .unwrap();
    assert_eq!(shipping, Some("123 Main St".to_string()));
}

#[test]
fn add_info_writes_nothing_on_failed_transfer() {
    let mut s = new_contract(500);
    let results = vec![PromiseOutcome::Failed];
    let r = s.add_info(
        "123 Main St".to_string(),
        "red".to_string(),
        &self_ctx("buyer1"),
        &results,
    );
    assert_eq!(r, Ok(false));
    assert_eq!(s.get_option("buyer1".to_string()), None);
    let shipping = s
        .get_shipping("buyer1".to_string(), &self_ctx("contract"))
        .unwrap();
    assert_eq!(shipping, None);
}

#[test]
fn get_option_is_open_and_exact() {
    let mut s = new_contract(500);
    let results = vec![PromiseOutcome::Successful(vec![])];
    s.add_info(
        "123 Main St".to_string(),
        "red".to_string(),
        &self_ctx("buyer1"),
        &results,
    )
    .unwrap();
    // any caller reads the exact stored string; no context is even needed
    assert_eq!(s.get_option("buyer1".to_string()), Some("red".to_string()));
    // an identity never recorded reads back None
    assert_eq!(s.get_option("stranger".to_string()), None);
}

#[test]
fn get_shipping_denied_to_everyone_but_the_contract() {
    let mut s = new_contract(500);
    let results = vec![PromiseOutcome::Successful(vec![])];
    s.add_info(
        "123 Main St".to_string(),
        "red".to_string(),
        &self_ctx("buyer1"),
        &results,
    )
    .unwrap();
    // the organizer is denied
    let r = s.get_shipping("buyer1".to_string(), &ctx("contract", "organizer", "organizer"));
    assert_eq!(r.err(), Some(SagaError::AccessDenied));
    // the buyer themselves is denied
    let r = s.get_shipping("buyer1".to_string(), &ctx("contract", "buyer1", "buyer1"));
    assert_eq!(r.err(), Some(SagaError::AccessDenied));
    // only the contract as its own caller may read
    let r = s.get_shipping("buyer1".to_string(), &self_ctx("contract"));
    assert_eq!(r, Ok(Some("123 Main St".to_string())));
}
