use vstd::prelude::*;
use crate::error::{Artifact, CliError};
use crate::ids::{Digest, ObjectId};

verus! {

/// A fully qualified Move struct name: package address, module and name.
#[derive(Clone, Debug)]
pub struct TypeName {
    pub address: ObjectId,
    pub module: String,
    pub name: String,
}

/// A module member named without its package, as the first type parameter
/// of a capability is matched.
#[derive(Clone, Debug)]
pub struct ModuleMember {
    pub module: String,
    pub name: String,
}

/// A type parameter of an object type: a struct, of which the head name is
/// kept, or any other type.
#[derive(Clone, Debug)]
pub enum TypeParam {
    Struct(TypeName),
    Other,
}

/// The declared type of a ledger object.
#[derive(Clone, Debug)]
pub struct TypeSignature {
    pub head: TypeName,
    pub type_params: Vec<TypeParam>,
}

/// One record of what a transaction did to an object.
#[derive(Clone, Debug)]
pub enum ObjectChange {
    Created { object_id: ObjectId, object_type: TypeSignature },
    Mutated { object_id: ObjectId },
    Deleted { object_id: ObjectId },
    Other,
}

/// An event of a transaction, decoded against the known Nexus event kinds.
#[derive(Clone, Copy, Debug, PartialEq, Eq, Structural)]
pub enum EventRecord {
    /// A network was created, together with its founding leader cap.
    FoundingLeaderCapCreated { network: ObjectId },
    /// Another known Nexus event.
    Other,
    /// An event that decodes as no known Nexus event.
    Unknown,
}

/// The ledger's answer to a submitted transaction.
#[derive(Clone, Debug)]
pub struct ExecutionResponse {
    pub digest: Digest,
    pub events: Option<Vec<EventRecord>>,
    pub object_changes: Option<Vec<ObjectChange>>,
}

/// The two owner capabilities created when a tool is registered.
#[derive(Clone, Copy, Debug, PartialEq, Eq, Structural)]
pub struct OwnerCaps {
    pub over_tool: ObjectId,
    pub over_gas: ObjectId,
}

/// Exact equality of address, module and name.
pub open spec fn same_type_name(t: TypeName, want: TypeName) -> bool {
    t.address == want.address && t.module@ == want.module@ && t.name@ == want.name@
}

/// The first type parameter of `sig` is a struct named `want`.
pub open spec fn first_param_is(sig: TypeSignature, want: ModuleMember) -> bool {
    sig.type_params@.len() > 0 && match sig.type_params@[0] {
        TypeParam::Struct(t) => t.module@ == want.module@ && t.name@ == want.name@,
        TypeParam::Other => false,
    }
}

/// `c` records the creation of an object of type `outer<param, ..>`.
pub open spec fn created_match(c: ObjectChange, outer: TypeName, param: ModuleMember) -> bool {
    match c {
        ObjectChange::Created { object_type, .. } => same_type_name(object_type.head, outer)
            && first_param_is(object_type, param),
        _ => false,
    }
}

pub open spec fn created_id(c: ObjectChange) -> ObjectId {
    match c {
        ObjectChange::Created { object_id, .. } => object_id,
        _ => arbitrary(),
    }
}

/// The object created first, in response order, with type `outer<param, ..>`.
pub open spec fn first_created(changes: Seq<ObjectChange>, outer: TypeName, param: ModuleMember) -> Option<
    ObjectId,
>
    decreases changes.len(),
{
    if changes.len() == 0 {
        None
    } else if created_match(changes[0], outer, param) {
        Some(created_id(changes[0]))
    } else {
        first_created(changes.drop_first(), outer, param)
    }
}

/// The network of the first network-creation event, in response order.
pub open spec fn first_network(events: Seq<EventRecord>) -> Option<ObjectId>
    decreases events.len(),
{
    if events.len() == 0 {
        None
    } else if let EventRecord::FoundingLeaderCapCreated { network } = events[0] {
        Some(network)
    } else {
        first_network(events.drop_first())
    }
}

/// The object changes of a response; a response without them has none.
pub open spec fn changes_of(resp: ExecutionResponse) -> Seq<ObjectChange> {
    match resp.object_changes {
        Some(v) => v@,
        None => Seq::empty(),
    }
}

pub open spec fn network_id_spec(resp: ExecutionResponse) -> Result<ObjectId, CliError> {
    let found = match resp.events {
        Some(v) => first_network(v@),
        None => None,
    };
    match found {
        Some(id) => Ok(id),
        None => Err(CliError::ArtifactNotFound { artifact: Artifact::NetworkId }),
    }
}

pub open spec fn owner_caps_spec(
    changes: Seq<ObjectChange>,
    cap: TypeName,
    over_tool: ModuleMember,
    over_gas: ModuleMember,
) -> Result<OwnerCaps, CliError> {
    match first_created(changes, cap, over_tool) {
        None => Err(CliError::ArtifactNotFound { artifact: Artifact::OwnerCapOverTool }),
        Some(t) => match first_created(changes, cap, over_gas) {
            None => Err(CliError::ArtifactNotFound { artifact: Artifact::OwnerCapOverGas }),
            Some(g) => Ok(OwnerCaps { over_tool: t, over_gas: g }),
        },
    }
}

fn str_eq(a: &String, b: &String) -> (r: bool)
    ensures
        r == (a@ == b@),
{
    a.eq(b)
}

fn type_name_eq(t: &TypeName, want: &TypeName) -> (r: bool)
    ensures
        r == same_type_name(*t, *want),
{
    t.address == want.address && str_eq(&t.module, &want.module) && str_eq(&t.name, &want.name)
}

/// Whether `c` records the creation of an object of type `outer<param, ..>`.
pub fn is_created_match(c: &ObjectChange, outer: &TypeName, param: &ModuleMember) -> (r: bool)
    ensures
        r == created_match(*c, *outer, *param),
{
    match c {
        ObjectChange::Created { object_type, .. } => {
            if !type_name_eq(&object_type.head, outer) || object_type.type_params.len() == 0 {
                return false;
            }
            match &object_type.type_params[0] {
                TypeParam::Struct(t) => str_eq(&t.module, &param.module) && str_eq(
                    &t.name,
                    &param.name,
                ),
                TypeParam::Other => false,
            }
        },
        _ => false,
    }
}

/// The identifier of the first object, in response order, created with type
/// `outer<param, ..>`: outer name and first type parameter must both match
/// exactly.
pub fn find_created_object(changes: &Vec<ObjectChange>, outer: &TypeName, param: &ModuleMember) -> (r:
    Option<ObjectId>)
    ensures
        r == first_created(changes@, *outer, *param),
{
    let mut i: usize = 0;
    assert(changes@.subrange(0, changes@.len() as int) =~= changes@);
    while i < changes.len()
        invariant
            i <= changes@.len(),
            first_created(changes@, *outer, *param) == first_created(
                changes@.subrange(i as int, changes@.len() as int),
                *outer,
                *param,
            ),
        decreases changes@.len() - i,
    {
        assert(changes@.subrange(i as int, changes@.len() as int).drop_first()
            =~= changes@.subrange(i + 1, changes@.len() as int));
        if is_created_match(&changes[i], outer, param) {
            match &changes[i] {
                ObjectChange::Created { object_id, .. } => {
                    return Some(*object_id);
                },
                _ => {},
            }
        }
        i = i + 1;
    }
    None
}

/// The network announced by the first network-creation event, in order.
pub fn find_network_id(events: &Vec<EventRecord>) -> (r: Option<ObjectId>)
    ensures
        r == first_network(events@),
{
    let mut i: usize = 0;
    assert(events@.subrange(0, events@.len() as int) =~= events@);
    while i < events.len()
        invariant
            i <= events@.len(),
            first_network(events@) == first_network(
                events@.subrange(i as int, events@.len() as int),
            ),
        decreases events@.len() - i,
    {
        assert(events@.subrange(i as int, events@.len() as int).drop_first()
            =~= events@.subrange(i + 1, events@.len() as int));
        if let EventRecord::FoundingLeaderCapCreated { network } = events[i] {
            return Some(network);
        }
        i = i + 1;
    }
    None
}

/// The identifier of the network that a network-creation transaction made.
pub fn resolve_network_id(resp: &ExecutionResponse) -> (r: Result<ObjectId, CliError>)
    ensures
        r == network_id_spec(*resp),
{
    let found = match &resp.events {
        Some(v) => find_network_id(v),
        None => None,
    };
    match found {
        Some(id) => Ok(id),
        None => Err(CliError::ArtifactNotFound { artifact: Artifact::NetworkId }),
    }
}

/// The owner capabilities `cap<over_tool>` and `cap<over_gas>` that a tool
/// registration created.
pub fn resolve_owner_caps(
    resp: &ExecutionResponse,
    cap: &TypeName,
    over_tool: &ModuleMember,
    over_gas: &ModuleMember,
) -> (r: Result<OwnerCaps, CliError>)
    ensures
        r == owner_caps_spec(changes_of(*resp), *cap, *over_tool, *over_gas),
{
    let empty: Vec<ObjectChange> = Vec::new();
    let changes = match &resp.object_changes {
        Some(v) => v,
        None => &empty,
    };
    assert(changes@ == changes_of(*resp));
    let t = match find_created_object(changes, cap, over_tool) {
        Some(t) => t,
        None => {
            return Err(CliError::ArtifactNotFound { artifact: Artifact::OwnerCapOverTool });
        },
    };
    match find_created_object(changes, cap, over_gas) {
        Some(g) => Ok(OwnerCaps { over_tool: t, over_gas: g }),
        None => Err(CliError::ArtifactNotFound { artifact: Artifact::OwnerCapOverGas }),
    }
}

/// Two objects created with the same outer capability type and different
/// first type parameters are never conflated: keyed on either parameter,
/// resolution returns that parameter's object alone, in either order of the
/// records, and tool registration resolves each capability to its own object.
pub proof fn lemma_caps_not_conflated(
    a: ObjectId,
    ta: TypeSignature,
    b: ObjectId,
    tb: TypeSignature,
    cap: TypeName,
    over_tool: ModuleMember,
    over_gas: ModuleMember,
)
    requires
        same_type_name(ta.head, cap),
        same_type_name(tb.head, cap),
        first_param_is(ta, over_tool),
        first_param_is(tb, over_gas),
        over_tool.module@ != over_gas.module@ || over_tool.name@ != over_gas.name@,
    ensures
        ({
            let ca = ObjectChange::Created { object_id: a, object_type: ta };
            let cb = ObjectChange::Created { object_id: b, object_type: tb };
            &&& first_created(seq![ca, cb], cap, over_tool) == Some(a)
            &&& first_created(seq![ca, cb], cap, over_gas) == Some(b)
            &&& first_created(seq![cb, ca], cap, over_tool) == Some(a)
            &&& first_created(seq![cb, ca], cap, over_gas) == Some(b)
            &&& owner_caps_spec(seq![ca, cb], cap, over_tool, over_gas) == Ok::<OwnerCaps, CliError>(
                OwnerCaps { over_tool: a, over_gas: b },
            )
        }),
{
    let ca = ObjectChange::Created { object_id: a, object_type: ta };
    let cb = ObjectChange::Created { object_id: b, object_type: tb };
    assert(!created_match(ca, cap, over_gas));
    assert(!created_match(cb, cap, over_tool));
    assert(seq![ca, cb].drop_first() =~= seq![cb]);
    assert(seq![cb, ca].drop_first() =~= seq![ca]);
    assert(seq![cb].drop_first() =~= Seq::<ObjectChange>::empty());
    assert(seq![ca].drop_first() =~= Seq::<ObjectChange>::empty());
    reveal_with_fuel(first_created, 3);
}

/// Event-based resolution fails with `ArtifactNotFound` when no event of the
/// response announces a network; it never makes up a default.
pub proof fn lemma_no_network_event(resp: ExecutionResponse)
    requires
        resp.events is Some ==> forall|i: int|
            0 <= i < resp.events->Some_0@.len()
                ==> !(resp.events->Some_0@[i] is FoundingLeaderCapCreated),
    ensures
        network_id_spec(resp) == Err::<ObjectId, CliError>(
            CliError::ArtifactNotFound { artifact: Artifact::NetworkId },
        ),
{
    if let Some(v) = resp.events {
        lemma_first_network_none(v@);
    }
}

proof fn lemma_first_network_none(events: Seq<EventRecord>)
    requires
        forall|i: int| 0 <= i < events.len() ==> !(events[i] is FoundingLeaderCapCreated),
    ensures
        first_network(events) is None,
    decreases events.len(),
{
    if events.len() > 0 {
        assert(!(events[0] is FoundingLeaderCapCreated));
        assert forall|i: int| 0 <= i < events.drop_first().len() implies !(
        events.drop_first()[i] is FoundingLeaderCapCreated) by {
            assert(events.drop_first()[i] == events[i + 1]);
        }
        lemma_first_network_none(events.drop_first());
    }
}

/// The network announced by an event follows every event that announces
/// none: with no such event before it, it is the one resolved.
pub proof fn lemma_first_network_after(
    before: Seq<EventRecord>,
    network: ObjectId,
    after: Seq<EventRecord>,
)
    requires
        forall|i: int| 0 <= i < before.len() ==> !(before[i] is FoundingLeaderCapCreated),
    ensures
        first_network(before + seq![EventRecord::FoundingLeaderCapCreated { network }] + after)
            == Some(network),
    decreases before.len(),
{
    let rest = seq![EventRecord::FoundingLeaderCapCreated { network }] + after;
    assert(before + seq![EventRecord::FoundingLeaderCapCreated { network }] + after =~= before
        + rest);
    if before.len() == 0 {
        assert(before + rest =~= rest);
    } else {
        assert((before + rest).drop_first() =~= before.drop_first() + rest);
        assert(before.drop_first() + seq![EventRecord::FoundingLeaderCapCreated { network }] + after
            =~= before.drop_first() + rest);
        assert(!(before[0] is FoundingLeaderCapCreated));
        assert forall|i: int| 0 <= i < before.drop_first().len() implies !(
        before.drop_first()[i] is FoundingLeaderCapCreated) by {
            assert(before.drop_first()[i] == before[i + 1]);
        }
        lemma_first_network_after(before.drop_first(), network, after);
    }
}

} // verus!
