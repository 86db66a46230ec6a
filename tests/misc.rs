use nexus_cli::call::{build_create_network_call, CallArg};
use nexus_cli::config::{require_nexus_objects, NexusObjects};
use nexus_cli::error::{Artifact, CliError};
use nexus_cli::health::{health_from_indicator, HealthStatus};
use nexus_cli::ids::{Coin, Digest, ObjectId, ObjectRef};
use nexus_cli::net::SuiNet;
use nexus_cli::resolve::{resolve_network_id, EventRecord, ExecutionResponse, ModuleMember};

fn id(n: u128) -> ObjectId {
    ObjectId { hi: 3, lo: n }
}

#[test]
fn test_sui_net_display() {
    assert_eq!(SuiNet::Localnet.to_string(), "localnet");
    assert_eq!(SuiNet::Devnet.to_string(), "devnet");
    assert_eq!(SuiNet::Testnet.to_string(), "testnet");
    assert_eq!(SuiNet::Mainnet.to_string(), "mainnet");
}

#[test]
fn default_network_is_localnet() {
    assert_eq!(SuiNet::default(), SuiNet::Localnet);
    assert!(SuiNet::Testnet.allows_top_up());
    assert!(!SuiNet::Mainnet.allows_top_up());
}

#[test]
fn coin_reference_keeps_version_and_digest() {
    let c = Coin { object_id: id(4), version: 12, digest: Digest { hi: 8, lo: 9 }, balance: 100 };
    assert_eq!(c.object_ref(), ObjectRef { object_id: id(4), version: 12, digest: Digest { hi: 8, lo: 9 } });
}

#[test]
fn create_network_call_round_trip() {
    for n in [0u128, 1, 5] {
        let addresses: Vec<ObjectId> = (0..n).map(id).collect();
        let gas = Coin { object_id: id(100), version: 2, digest: Digest { hi: 0, lo: 1 }, balance: 9 };
        let target = ModuleMember { module: "leader_cap".to_string(), name: "create_for_self_and_addresses".to_string() };
        let call = build_create_network_call(id(200), id(300), target, addresses.clone(), 4, &gas, 1000, 750);
        assert_eq!(call.sender, id(200));
        assert_eq!(call.package, id(300));
        assert_eq!(call.module, "leader_cap");
        assert_eq!(call.function, "create_for_self_and_addresses");
        assert_eq!(call.gas_payment, gas.object_ref());
        assert_eq!((call.gas_budget, call.gas_price), (1000, 750));
        assert_eq!(call.args.len(), 2);
        assert!(matches!(call.args[0], CallArg::U32(4)));
        match &call.args[1] {
            CallArg::AddressList(a) => assert_eq!(a, &addresses),
            other => panic!("unexpected argument {:?}", other),
        }
        let mut events = vec![EventRecord::Other; n as usize];
        events.push(EventRecord::FoundingLeaderCapCreated { network: id(555) });
        let resp = ExecutionResponse { digest: Digest { hi: 1, lo: 1 }, events: Some(events), object_changes: None };
        assert_eq!(resolve_network_id(&resp), Ok(id(555)));
    }
}

#[test]
fn health_follows_indicator() {
    assert_eq!(health_from_indicator(Some("none".to_string())).code(), 200);
    assert_eq!(health_from_indicator(Some("minor".to_string())).code(), 200);
    assert_eq!(health_from_indicator(Some("major".to_string())), HealthStatus::Unavailable);
    assert_eq!(health_from_indicator(Some("critical".to_string())).code(), 503);
    assert_eq!(health_from_indicator(None).code(), 500);
}

#[test]
fn missing_nexus_objects_is_configuration_missing() {
    assert_eq!(require_nexus_objects(None), Err(CliError::ConfigurationMissing));
    let r = ObjectRef { object_id: id(1), version: 1, digest: Digest { hi: 0, lo: 0 } };
    let objs = NexusObjects {
        workflow_pkg_id: id(1),
        primitives_pkg_id: id(2),
        interface_pkg_id: id(3),
        network_id: id(4),
        tool_registry: r,
        default_sap: r,
        gas_service: r,
    };
    assert_eq!(require_nexus_objects(Some(objs)), Ok(objs));
    assert_ne!(CliError::ArtifactNotFound { artifact: Artifact::NetworkId }, CliError::SubmissionFailed);
}
