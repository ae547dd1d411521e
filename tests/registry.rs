use decentralized_task_auction::registry::DecentralizedTaskAuction;
use decentralized_task_auction::types::{AccountId, Env};

#[test]
fn it_works() {
    let alice = AccountId(1);
    let charlie = AccountId(3);
    let mut dca = DecentralizedTaskAuction::new(0);
    let caller = Env { caller: alice, now: 0, rejecting: vec![] };
    let id = dca.create_task_auction(&caller, "test desc".to_string(), charlie, 0, 0, 0, 0);
    assert_eq!(id, (0, 0));
    let id = dca.create_task_auction(&caller, "second".to_string(), charlie, 10, 20, 11, 5);
    assert_eq!(id, (1, 1));
}
