use vstd::prelude::*;
use crate::ids::{Coin, ObjectId, ObjectRef};
use crate::resolve::{first_network, EventRecord, ModuleMember};

verus! {

/// An argument of a Move call, already in the form the ledger expects.
#[derive(Clone, Debug)]
pub enum CallArg {
    U32(u32),
    U64(u64),
    Address(ObjectId),
    AddressList(Vec<ObjectId>),
    Object(ObjectRef),
}

/// A call of an entry function of an on-chain package, ready to be signed
/// and submitted. Building it checks nothing of the arguments' meaning.
#[derive(Clone, Debug)]
pub struct MoveCall {
    pub sender: ObjectId,
    pub package: ObjectId,
    pub module: String,
    pub function: String,
    pub args: Vec<CallArg>,
    pub gas_payment: ObjectRef,
    pub gas_budget: u64,
    pub gas_price: u64,
}

/// The arguments of a call that creates a network, in call order: the
/// number of leader caps, then the addresses that receive them.
pub open spec fn create_network_args(count_leader_caps: u32, addresses: Vec<ObjectId>) -> Seq<CallArg> {
    seq![CallArg::U32(count_leader_caps), CallArg::AddressList(addresses)]
}

/// What a network-creation call carries: leader cap count and addresses.
pub open spec fn decode_create_network_args(args: Seq<CallArg>) -> Option<(u32, Seq<ObjectId>)> {
    if args.len() == 2 && args[0] is U32 && args[1] is AddressList {
        Some((args[0]->U32_0, args[1]->AddressList_0@))
    } else {
        None
    }
}

/// Assembles the call that creates a network from `target` in package
/// `workflow_pkg`, paid for with `gas_coin`.
pub fn build_create_network_call(
    sender: ObjectId,
    workflow_pkg: ObjectId,
    target: ModuleMember,
    addresses: Vec<ObjectId>,
    count_leader_caps: u32,
    gas_coin: &Coin,
    gas_budget: u64,
    gas_price: u64,
) -> (r: MoveCall)
    ensures
        r.sender == sender,
        r.package == workflow_pkg,
        r.module@ == target.module@,
        r.function@ == target.name@,
        r.args@ == create_network_args(count_leader_caps, addresses),
        r.gas_payment == gas_coin.spec_object_ref(),
        r.gas_budget == gas_budget,
        r.gas_price == gas_price,
{
    let args = vec![CallArg::U32(count_leader_caps), CallArg::AddressList(addresses)];
    assert(args@ =~= create_network_args(count_leader_caps, addresses));
    MoveCall {
        sender,
        package: workflow_pkg,
        module: target.module,
        function: target.name,
        args,
        gas_payment: gas_coin.object_ref(),
        gas_budget,
        gas_price,
    }
}

/// The events a network creation emits besides the announcement of the
/// network: one for each leader cap granted.
pub open spec fn grant_events(n: nat) -> Seq<EventRecord> {
    Seq::new(n, |i: int| EventRecord::Other)
}

/// A network-creation call carries back the leader cap count and addresses
/// it was built from; and a response that announces the new network after
/// the grant events, however many addresses were granted, resolves to
/// exactly that network.
pub proof fn lemma_create_network_round_trip(
    count_leader_caps: u32,
    addresses: Vec<ObjectId>,
    network: ObjectId,
    after: Seq<EventRecord>,
)
    ensures
        decode_create_network_args(create_network_args(count_leader_caps, addresses)) == Some(
            (count_leader_caps, addresses@),
        ),
        first_network(
            grant_events(addresses@.len()) + seq![EventRecord::FoundingLeaderCapCreated { network }]
                + after,
        ) == Some(network),
{
    crate::resolve::lemma_first_network_after(grant_events(addresses@.len()), network, after);
}

} // verus!
