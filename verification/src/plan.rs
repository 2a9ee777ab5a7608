//! Deterministic planning of one workload iteration.
//!
//! Each strategy's loop body is a pure decision: given the worker
//! identity, its iteration counter and two fresh random draws, it plans
//! the HTTP operations of that iteration. The transport that executes
//! the plan lives outside the library; everything decided here — which
//! verb, which key, which value — is verified against `plan_spec`.

use vstd::prelude::*;
use vstd::set_lib::{lemma_int_range, set_int_range};
use vstd::string::StringExecFns;
use crate::keys::{
    indexed_key, make_indexed_key, make_scoped_key, make_value, scoped_key, value_str,
};
use crate::workload::WorkloadType;

verus! {

/// The verb of one operation.
#[derive(Clone, Copy, Debug, PartialEq, Eq, Structural)]
pub enum OpKind {
    Get,
    Put,
    Delete,
}

/// One HTTP operation to issue: verb, key, and (for PUT) the value.
#[derive(Debug)]
pub enum Operation {
    Get { key: String },
    Put { key: String, value: String },
    Delete { key: String },
}

/// The mathematical content of an `Operation`; GET and DELETE carry no
/// value.
pub struct OpModel {
    pub kind: OpKind,
    pub key: Seq<char>,
    pub value: Seq<char>,
}

/// A planned GET.
pub open spec fn get_op(key: Seq<char>) -> OpModel {
    OpModel { kind: OpKind::Get, key, value: Seq::empty() }
}

/// A planned PUT.
pub open spec fn put_op(key: Seq<char>, value: Seq<char>) -> OpModel {
    OpModel { kind: OpKind::Put, key, value }
}

/// A planned DELETE.
pub open spec fn delete_op(key: Seq<char>) -> OpModel {
    OpModel { kind: OpKind::Delete, key, value: Seq::empty() }
}

impl View for Operation {
    type V = OpModel;

    open spec fn view(&self) -> OpModel {
        match self {
            Operation::Get { key } => get_op(key@),
            Operation::Put { key, value } => put_op(key@, value@),
            Operation::Delete { key } => delete_op(key@),
        }
    }
}

/// The models of a planned sequence of operations.
pub open spec fn plan_model(ops: Seq<Operation>) -> Seq<OpModel> {
    ops.map_values(|op: Operation| op@)
}

/// What one iteration of each strategy plans, as a function of the
/// worker `id`, its iteration `counter`, and two random draws: `r1`
/// picks the branch (or the popular key), `r2` picks the key inside the
/// chosen branch.
///
/// - `PutAll`: PUT `key_put_<id>_<counter>` = `v<counter>`, then DELETE
///   the identical key.
/// - `GetAll`: GET the fresh key `unique_<id>_<counter>`.
/// - `GetPopular`: GET `popular_<1..=10>`, picked by `r1`.
/// - `GetPut`: 70% GET `hot_<0..20>`, 20% PUT `key_gp_<id>_<counter>`,
///   10% DELETE `key_gp_<id>_<0..100>`.
/// - `Stress`: 60% GET `stress_hot_<0..100>`, 25% PUT `sk_<id>_<counter>`,
///   15% DELETE `sk_<id>_<0..1000>`.
pub open spec fn plan_spec(
    kind: WorkloadType,
    id: nat,
    counter: nat,
    r1: nat,
    r2: nat,
) -> Seq<OpModel> {
    match kind {
        WorkloadType::PutAll => seq![
            put_op(scoped_key("key_put_"@, id, counter), value_str(counter)),
            delete_op(scoped_key("key_put_"@, id, counter)),
        ],
        WorkloadType::GetAll => seq![get_op(scoped_key("unique_"@, id, counter))],
        WorkloadType::GetPopular => seq![get_op(indexed_key("popular_"@, r1 % 10 + 1))],
        WorkloadType::GetPut => {
            let b = r1 % 100;
            if b < 70 {
                seq![get_op(indexed_key("hot_"@, r2 % 20))]
            } else if b < 90 {
                seq![put_op(scoped_key("key_gp_"@, id, counter), value_str(counter))]
            } else {
                seq![delete_op(scoped_key("key_gp_"@, id, r2 % 100))]
            }
        },
        WorkloadType::Stress => {
            let b = r1 % 100;
            if b < 60 {
                seq![get_op(indexed_key("stress_hot_"@, r2 % 100))]
            } else if b < 85 {
                seq![put_op(scoped_key("sk_"@, id, counter), value_str(counter))]
            } else {
                seq![delete_op(scoped_key("sk_"@, id, r2 % 1000))]
            }
        },
    }
}

/// Plan one iteration from given draws.
pub fn plan_iteration_with(
    kind: WorkloadType,
    id: u64,
    counter: u64,
    r1: u32,
    r2: u32,
) -> (ops: Vec<Operation>)
    ensures
        plan_model(ops@) == plan_spec(kind, id as nat, counter as nat, r1 as nat, r2 as nat),
{
    let mut ops: Vec<Operation> = Vec::new();
    match kind {
        WorkloadType::PutAll => {
            let key = make_scoped_key("key_put_", id, counter);
            let key2 = make_scoped_key("key_put_", id, counter);
            let value = make_value(counter);
            ops.push(Operation::Put { key, value });
            ops.push(Operation::Delete { key: key2 });
        },
        WorkloadType::GetAll => {
            let key = make_scoped_key("unique_", id, counter);
            ops.push(Operation::Get { key });
        },
        WorkloadType::GetPopular => {
            let key = make_indexed_key("popular_", (r1 % 10 + 1) as u64);
            ops.push(Operation::Get { key });
        },
        WorkloadType::GetPut => {
            let b = r1 % 100;
            if b < 70 {
                let key = make_indexed_key("hot_", (r2 % 20) as u64);
                ops.push(Operation::Get { key });
            } else if b < 90 {
                let key = make_scoped_key("key_gp_", id, counter);
                let value = make_value(counter);
                ops.push(Operation::Put { key, value });
            } else {
                let key = make_scoped_key("key_gp_", id, (r2 % 100) as u64);
                ops.push(Operation::Delete { key });
            }
        },
        WorkloadType::Stress => {
            let b = r1 % 100;
            if b < 60 {
                let key = make_indexed_key("stress_hot_", (r2 % 100) as u64);
                ops.push(Operation::Get { key });
            } else if b < 85 {
                let key = make_scoped_key("sk_", id, counter);
                let value = make_value(counter);
                ops.push(Operation::Put { key, value });
            } else {
                let key = make_scoped_key("sk_", id, (r2 % 1000) as u64);
                ops.push(Operation::Delete { key });
            }
        },
    }
    proof {
        assert(plan_model(ops@) =~= plan_spec(
            kind,
            id as nat,
            counter as nat,
            r1 as nat,
            r2 as nat,
        ));
    }
    ops
}

/// Relies on rand::random: an independently drawn value of the wanted
/// type; nothing is promised of it.
pub assume_specification<T>[ rand::random::<T> ]() -> (r: T)
    where
        rand::distributions::Standard: rand::distributions::Distribution<T>,
;

/// A plan some pair of draws could have produced for this strategy,
/// worker and counter.
pub open spec fn iteration_valid(
    kind: WorkloadType,
    id: nat,
    counter: nat,
    ops: Seq<OpModel>,
) -> bool {
    exists|r1: nat, r2: nat| ops == plan_spec(kind, id, counter, r1, r2)
}

/// Plan one iteration, drawing the randomness itself. Whatever the
/// draws came out as, the result is one of the strategy's admissible
/// iteration plans.
pub fn plan_iteration(kind: WorkloadType, id: u64, counter: u64) -> (ops: Vec<Operation>)
    ensures
        iteration_valid(kind, id as nat, counter as nat, plan_model(ops@)),
{
    let r1 = rand::random::<u32>();
    let r2 = rand::random::<u32>();
    let ops = plan_iteration_with(kind, id, counter, r1, r2);
    proof {
        assert(plan_model(ops@) == plan_spec(
            kind,
            id as nat,
            counter as nat,
            r1 as nat,
            r2 as nat,
        ));
    }
    ops
}

/// What the designated leader seeds before measurement begins: worker 0
/// PUTs `popular_1` through `popular_10`, each with the constant value
/// `val`; every other worker seeds nothing.
pub open spec fn seed_plan(id: nat) -> Seq<OpModel> {
    if id == 0 {
        Seq::new(10, |i: int| put_op(indexed_key("popular_"@, (i + 1) as nat), "val"@))
    } else {
        Seq::empty()
    }
}

/// Plan the seeding operations for one worker.
pub fn seed_ops(id: u64) -> (ops: Vec<Operation>)
    ensures
        plan_model(ops@) == seed_plan(id as nat),
{
    let mut ops: Vec<Operation> = Vec::new();
    if id == 0 {
        let mut i: u64 = 1;
        while i <= 10
            invariant
                1 <= i <= 11,
                ops@.len() == i - 1,
                forall|j: int|
                    0 <= j < ops@.len() ==> (#[trigger] ops@[j])@ == put_op(
                        indexed_key("popular_"@, (j + 1) as nat),
                        "val"@,
                    ),
            decreases 11 - i,
        {
            let key = make_indexed_key("popular_", i);
            let value: String = String::from_str("val");
            ops.push(Operation::Put { key, value });
            i = i + 1;
        }
    }
    proof {
        assert(plan_model(ops@) =~= seed_plan(id as nat));
    }
    ops
}

/// The shared pool of hot keys that `GetPopular` reads: exactly the ten
/// keys `popular_1` through `popular_10`.
pub open spec fn popular_pool() -> Set<Seq<char>> {
    Set::new(|k: Seq<char>| exists|i: nat| 1 <= i <= 10 && k == indexed_key("popular_"@, i))
}

/// Law: every iteration a `PutAll` worker plans is a PUT immediately
/// followed by a DELETE of the identical key.
pub proof fn lemma_putall_put_then_delete(id: nat, counter: nat, r1: nat, r2: nat)
    ensures
        plan_spec(WorkloadType::PutAll, id, counter, r1, r2).len() == 2,
        plan_spec(WorkloadType::PutAll, id, counter, r1, r2)[0].kind == OpKind::Put,
        plan_spec(WorkloadType::PutAll, id, counter, r1, r2)[1].kind == OpKind::Delete,
        plan_spec(WorkloadType::PutAll, id, counter, r1, r2)[0].key == plan_spec(
            WorkloadType::PutAll,
            id,
            counter,
            r1,
            r2,
        )[1].key,
{
}

/// Law: every measured operation a `GetPopular` worker plans is a GET,
/// and its key lies in the ten-key popular pool.
pub proof fn lemma_getpopular_draws_from_pool(id: nat, counter: nat, r1: nat, r2: nat)
    ensures
        plan_spec(WorkloadType::GetPopular, id, counter, r1, r2).len() == 1,
        plan_spec(WorkloadType::GetPopular, id, counter, r1, r2)[0].kind == OpKind::Get,
        popular_pool().contains(plan_spec(WorkloadType::GetPopular, id, counter, r1, r2)[0].key),
{
    let k = plan_spec(WorkloadType::GetPopular, id, counter, r1, r2)[0].key;
    assert(1 <= r1 % 10 + 1 <= 10 && k == indexed_key("popular_"@, r1 % 10 + 1));
}

/// Law: only the worker with identity 0 seeds, and it seeds exactly the
/// ten pool keys `popular_1` through `popular_10`, in order.
pub proof fn lemma_seed_only_leader(id: nat)
    ensures
        id != 0 ==> seed_plan(id).len() == 0,
        id == 0 ==> seed_plan(id).len() == 10,
        forall|j: int|
            0 <= j < seed_plan(id).len() ==> (#[trigger] seed_plan(id)[j]).kind == OpKind::Put
                && seed_plan(id)[j].key == indexed_key("popular_"@, (j + 1) as nat)
                && popular_pool().contains(seed_plan(id)[j].key),
{
    assert forall|j: int| 0 <= j < seed_plan(id).len() implies (#[trigger] seed_plan(id)[j]).kind
        == OpKind::Put && seed_plan(id)[j].key == indexed_key("popular_"@, (j + 1) as nat)
        && popular_pool().contains(seed_plan(id)[j].key) by {
        let i = (j + 1) as nat;
        assert(1 <= i <= 10 && seed_plan(id)[j].key == indexed_key("popular_"@, i));
    }
}

/// Law: whatever the draws came out as, a planned `PutAll` iteration is
/// a PUT immediately followed by a DELETE of the identical key.
pub proof fn lemma_putall_iteration_shape(id: nat, counter: nat, ops: Seq<OpModel>)
    requires
        iteration_valid(WorkloadType::PutAll, id, counter, ops),
    ensures
        ops.len() == 2,
        ops[0].kind == OpKind::Put,
        ops[1].kind == OpKind::Delete,
        ops[0].key == ops[1].key,
{
    let (r1, r2) = choose|r1: nat, r2: nat|
        ops == plan_spec(WorkloadType::PutAll, id, counter, r1, r2);
    lemma_putall_put_then_delete(id, counter, r1, r2);
}

/// Law: whatever the draws came out as, a planned `GetPopular` iteration
/// is one GET whose key lies in the ten-key popular pool.
pub proof fn lemma_getpopular_iteration_in_pool(id: nat, counter: nat, ops: Seq<OpModel>)
    requires
        iteration_valid(WorkloadType::GetPopular, id, counter, ops),
    ensures
        ops.len() == 1,
        ops[0].kind == OpKind::Get,
        popular_pool().contains(ops[0].key),
{
    let (r1, r2) = choose|r1: nat, r2: nat|
        ops == plan_spec(WorkloadType::GetPopular, id, counter, r1, r2);
    lemma_getpopular_draws_from_pool(id, counter, r1, r2);
}

/// Law: of the 100 equally likely branch classes of one `GetPut`
/// iteration, exactly 70 plan a GET, 20 a PUT and 10 a DELETE.
pub proof fn lemma_getput_split(id: nat, counter: nat, r2: nat)
    ensures
        Set::new(
            |b: int| 0 <= b < 100 && plan_spec(WorkloadType::GetPut, id, counter, b as nat, r2)[0].kind
                == OpKind::Get,
        ).len() == 70,
        Set::new(
            |b: int| 0 <= b < 100 && plan_spec(WorkloadType::GetPut, id, counter, b as nat, r2)[0].kind
                == OpKind::Put,
        ).len() == 20,
        Set::new(
            |b: int| 0 <= b < 100 && plan_spec(WorkloadType::GetPut, id, counter, b as nat, r2)[0].kind
                == OpKind::Delete,
        ).len() == 10,
{
    lemma_int_range(0, 70);
    lemma_int_range(70, 90);
    lemma_int_range(90, 100);
    assert(Set::new(
        |b: int| 0 <= b < 100 && plan_spec(WorkloadType::GetPut, id, counter, b as nat, r2)[0].kind
            == OpKind::Get,
    ) =~= set_int_range(0, 70));
    assert(Set::new(
        |b: int| 0 <= b < 100 && plan_spec(WorkloadType::GetPut, id, counter, b as nat, r2)[0].kind
            == OpKind::Put,
    ) =~= set_int_range(70, 90));
    assert(Set::new(
        |b: int| 0 <= b < 100 && plan_spec(WorkloadType::GetPut, id, counter, b as nat, r2)[0].kind
            == OpKind::Delete,
    ) =~= set_int_range(90, 100));
}

/// Law: of the 100 equally likely branch classes of one `Stress`
/// iteration, exactly 60 plan a GET, 25 a PUT and 15 a DELETE.
pub proof fn lemma_stress_split(id: nat, counter: nat, r2: nat)
    ensures
        Set::new(
            |b: int| 0 <= b < 100 && plan_spec(WorkloadType::Stress, id, counter, b as nat, r2)[0].kind
                == OpKind::Get,
        ).len() == 60,
        Set::new(
            |b: int| 0 <= b < 100 && plan_spec(WorkloadType::Stress, id, counter, b as nat, r2)[0].kind
                == OpKind::Put,
        ).len() == 25,
        Set::new(
            |b: int| 0 <= b < 100 && plan_spec(WorkloadType::Stress, id, counter, b as nat, r2)[0].kind
                == OpKind::Delete,
        ).len() == 15,
{
    lemma_int_range(0, 60);
    lemma_int_range(60, 85);
    lemma_int_range(85, 100);
    assert(Set::new(
        |b: int| 0 <= b < 100 && plan_spec(WorkloadType::Stress, id, counter, b as nat, r2)[0].kind
            == OpKind::Get,
    ) =~= set_int_range(0, 60));
    assert(Set::new(
        |b: int| 0 <= b < 100 && plan_spec(WorkloadType::Stress, id, counter, b as nat, r2)[0].kind
            == OpKind::Put,
    ) =~= set_int_range(60, 85));
    assert(Set::new(
        |b: int| 0 <= b < 100 && plan_spec(WorkloadType::Stress, id, counter, b as nat, r2)[0].kind
            == OpKind::Delete,
    ) =~= set_int_range(85, 100));
}

} // verus!
