use vstd::prelude::*;
use crate::types::{AccountId, Balance, Env, Timestamp};

verus! {

/// The terms of one task as the registry keeps them.
pub struct TaskAuction {
    pub task_id: u32,
    pub description: String,
    pub closing_time: Timestamp,
    pub extension_time: Timestamp,
    pub deposit: Balance,
    pub ask_price: Balance,
    pub bid_price: Balance,
    pub contractor: AccountId,
    pub client: AccountId,
    pub jury: AccountId,
}

/// Announces a task under its storage key and its id.
#[derive(Clone, Copy, Debug, PartialEq, Eq, Structural)]
pub struct CreateEvent {
    pub key: u32,
    pub id: u32,
}

/// The registry, as a mathematical record.
pub struct RegistryModel {
    pub service_fee: Balance,
    pub task_counter: u32,
    pub tasks: Seq<TaskAuction>,
}

impl RegistryModel {
    /// Each task is stored under its id, and ids count up from zero.
    pub open spec fn wf(self) -> bool {
        &&& self.tasks.len() == self.task_counter
        &&& forall|i: int| 0 <= i < self.tasks.len() ==> #[trigger] self.tasks[i].task_id == i
    }
}

/// Holds the tasks that clients put up for auction.
pub struct DecentralizedTaskAuction {
    service_fee: Balance,
    task_counter: u32,
    tasks: Vec<TaskAuction>,
}

impl View for DecentralizedTaskAuction {
    type V = RegistryModel;

    closed spec fn view(&self) -> RegistryModel {
        RegistryModel { service_fee: self.service_fee, task_counter: self.task_counter, tasks: self.tasks@ }
    }
}

/// The record of a new task: the caller is its client and, until a bid
/// comes, its contractor; the bid price starts at the asking price.
pub open spec fn new_task(
    task_id: u32,
    env: Env,
    description: String,
    jury: AccountId,
    ask_price: Balance,
    deposit: Balance,
    closing_time: Timestamp,
    extension_time: Timestamp,
) -> TaskAuction {
    TaskAuction {
        task_id,
        description,
        closing_time,
        extension_time,
        deposit,
        ask_price,
        bid_price: ask_price,
        contractor: env.caller,
        client: env.caller,
        jury,
    }
}

impl DecentralizedTaskAuction {
    pub open spec fn wf(&self) -> bool {
        self@.wf()
    }

    pub fn new(service_fee: Balance) -> (r: DecentralizedTaskAuction)
        ensures
            r@ == (RegistryModel { service_fee, task_counter: 0, tasks: seq![] }),
            r.wf(),
    {
        DecentralizedTaskAuction { service_fee, task_counter: 0, tasks: Vec::new() }
    }

    /// Stores a new task and returns its id and its storage key, which are
    /// the number of tasks stored before it.
    pub fn create_task_auction(
        &mut self,
        env: &Env,
        description: String,
        jury: AccountId,
        ask_price: Balance,
        deposit: Balance,
        closing_time: Timestamp,
        extension_time: Timestamp,
    ) -> (r: (u32, u32))
        requires
            old(self).wf(),
            old(self)@.task_counter < u32::MAX,
        ensures
            final(self).wf(),
            r == (old(self)@.task_counter, old(self)@.task_counter),
            final(self)@.service_fee == old(self)@.service_fee,
            final(self)@.task_counter == old(self)@.task_counter + 1,
            final(self)@.tasks == old(self)@.tasks.push(
                new_task(old(self)@.task_counter, *env, description, jury, ask_price, deposit, closing_time, extension_time),
            ),
    {
        let task_id = self.task_counter;
        let task_key = self.tasks.len() as u32;
        self.tasks.push(TaskAuction {
            task_id,
            description,
            client: env.caller,
            jury,
            contractor: env.caller,
            bid_price: ask_price,
            ask_price,
            deposit,
            closing_time,
            extension_time,
        });
        self.task_counter = self.task_counter + 1;
        proof {
            assert forall|i: int| 0 <= i < self.tasks@.len() implies #[trigger] self.tasks@[i].task_id == i by {
                if i < self.tasks@.len() - 1 {
                    assert(self.tasks@[i] == old(self).tasks@[i]);
                }
            }
        }
        (task_id, task_key)
    }
}

} // verus!
