use nexus_cli::error::{Artifact, CliError};
use nexus_cli::ids::{Digest, ObjectId};
use nexus_cli::resolve::{
    find_created_object, resolve_network_id, resolve_owner_caps, EventRecord, ExecutionResponse,
    ModuleMember, ObjectChange, OwnerCaps, TypeName, TypeParam, TypeSignature,
};

fn id(n: u128) -> ObjectId {
    ObjectId { hi: 0, lo: n }
}

fn member(module: &str, name: &str) -> ModuleMember {
    ModuleMember { module: module.to_string(), name: name.to_string() }
}

fn tname(pkg: u128, module: &str, name: &str) -> TypeName {
    TypeName { address: id(pkg), module: module.to_string(), name: name.to_string() }
}

fn cap_of(pkg: u128, param: TypeParam) -> TypeSignature {
    TypeSignature { head: tname(pkg, "owner_cap", "CloneableOwnerCap"), type_params: vec![param] }
}

fn over_tool() -> ModuleMember {
    member("tool_registry", "OverTool")
}

fn over_gas() -> ModuleMember {
    member("gas", "OverGas")
}

fn created(n: u128, object_type: TypeSignature) -> ObjectChange {
    ObjectChange::Created { object_id: id(n), object_type }
}

fn response(events: Option<Vec<EventRecord>>, changes: Option<Vec<ObjectChange>>) -> ExecutionResponse {
    ExecutionResponse { digest: Digest { hi: 1, lo: 2 }, events, object_changes: changes }
}

fn tool_param() -> TypeParam {
    TypeParam::Struct(tname(5, "tool_registry", "OverTool"))
}

fn gas_param() -> TypeParam {
    TypeParam::Struct(tname(5, "gas", "OverGas"))
}

#[test]
fn owner_caps_are_told_apart_by_first_type_parameter() {
    let cap = tname(9, "owner_cap", "CloneableOwnerCap");
    for changes in [
        vec![created(10, cap_of(9, tool_param())), created(11, cap_of(9, gas_param()))],
        vec![created(11, cap_of(9, gas_param())), created(10, cap_of(9, tool_param()))],
    ] {
        assert_eq!(find_created_object(&changes, &cap, &over_tool()), Some(id(10)));
        assert_eq!(find_created_object(&changes, &cap, &over_gas()), Some(id(11)));
        let resp = response(None, Some(changes));
        assert_eq!(
            resolve_owner_caps(&resp, &cap, &over_tool(), &over_gas()),
            Ok(OwnerCaps { over_tool: id(10), over_gas: id(11) })
        );
    }
}

#[test]
fn outer_type_must_match_exactly() {
    let cap = tname(9, "owner_cap", "CloneableOwnerCap");
    let changes = vec![
        created(1, cap_of(8, tool_param())),
        created(2, TypeSignature { head: tname(9, "owner_cap", "OwnerCap"), type_params: vec![tool_param()] }),
        created(3, TypeSignature { head: tname(9, "owner", "CloneableOwnerCap"), type_params: vec![tool_param()] }),
        ObjectChange::Mutated { object_id: id(4) },
        created(5, cap_of(9, TypeParam::Other)),
        created(6, TypeSignature { head: cap.clone(), type_params: vec![] }),
        created(7, TypeSignature { head: cap.clone(), type_params: vec![gas_param(), tool_param()] }),
    ];
    assert_eq!(find_created_object(&changes, &cap, &over_tool()), None);
    assert_eq!(find_created_object(&changes, &cap, &over_gas()), Some(id(7)));
}

#[test]
fn first_matching_record_wins() {
    let cap = tname(9, "owner_cap", "CloneableOwnerCap");
    let changes = vec![
        ObjectChange::Deleted { object_id: id(1) },
        created(2, cap_of(9, tool_param())),
        created(3, cap_of(9, tool_param())),
    ];
    assert_eq!(find_created_object(&changes, &cap, &over_tool()), Some(id(2)));
}

#[test]
fn missing_owner_caps_are_reported_by_role() {
    let cap = tname(9, "owner_cap", "CloneableOwnerCap");
    let only_gas = response(None, Some(vec![created(11, cap_of(9, gas_param()))]));
    assert_eq!(
        resolve_owner_caps(&only_gas, &cap, &over_tool(), &over_gas()),
        Err(CliError::ArtifactNotFound { artifact: Artifact::OwnerCapOverTool })
    );
    let only_tool = response(None, Some(vec![created(10, cap_of(9, tool_param()))]));
    assert_eq!(
        resolve_owner_caps(&only_tool, &cap, &over_tool(), &over_gas()),
        Err(CliError::ArtifactNotFound { artifact: Artifact::OwnerCapOverGas })
    );
    let none = response(None, None);
    assert_eq!(
        resolve_owner_caps(&none, &cap, &over_tool(), &over_gas()),
        Err(CliError::ArtifactNotFound { artifact: Artifact::OwnerCapOverTool })
    );
}

#[test]
fn no_matching_event_is_artifact_not_found() {
    let not_found = Err(CliError::ArtifactNotFound { artifact: Artifact::NetworkId });
    assert_eq!(resolve_network_id(&response(Some(vec![]), None)), not_found);
    assert_eq!(resolve_network_id(&response(None, None)), not_found);
    let others = response(Some(vec![EventRecord::Other, EventRecord::Unknown]), None);
    assert_eq!(resolve_network_id(&others), not_found);
}

#[test]
fn first_network_event_is_resolved() {
    let events = vec![
        EventRecord::Unknown,
        EventRecord::FoundingLeaderCapCreated { network: id(77) },
        EventRecord::FoundingLeaderCapCreated { network: id(78) },
    ];
    assert_eq!(resolve_network_id(&response(Some(events), None)), Ok(id(77)));
}
