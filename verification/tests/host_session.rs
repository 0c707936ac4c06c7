use cuttle::bridge::{BridgeState, PyBridge};
use cuttle::host::{host_run, host_step, HostAction, HostEvent};
use cuttle::protocol::{CreateCubeParams, Fixed, ServiceMessage, ServiceResponse, Vec3};
use cuttle::service::{
    BlenderService, PingService, RegisteredService, ServiceManager, ServicePhase,
};

fn manager_with_both() -> ServiceManager {
    let mut manager = ServiceManager::new();
    manager.add_service(RegisteredService::Ping(PingService::new("main".to_string())));
    manager.add_service(RegisteredService::Blender(BlenderService::new("scene".to_string())));
    manager.start_all().expect("Failed to start services");
    manager
}

fn cube_message(name: &str) -> ServiceMessage {
    ServiceMessage::CreateCube(CreateCubeParams {
        location: Vec3::zero(),
        name: name.to_string(),
        size: Fixed::from_milli(1000),
    })
}

#[test]
fn one_response_per_request_in_order() {
    let mut manager = manager_with_both();
    let responses = host_run(
        &mut manager,
        vec![ServiceMessage::Ping, cube_message("Box"), ServiceMessage::ListObjects],
    );
    assert_eq!(responses.len(), 3);
    assert!(matches!(responses[0], ServiceResponse::Pong));
    assert!(matches!(responses[1], ServiceResponse::Created));
    match &responses[2] {
        ServiceResponse::ObjectList(objects) => assert_eq!(objects, &vec!["Box"]),
        _ => panic!("Expected object list"),
    }
}

#[test]
fn shutdown_request_ends_the_session() {
    let mut manager = manager_with_both();
    let responses = host_run(
        &mut manager,
        vec![
            ServiceMessage::Ping,
            ServiceMessage::Stop,
            // Nothing after the shutdown request is processed.
            cube_message("Never"),
        ],
    );
    assert_eq!(responses.len(), 2);
    assert!(matches!(responses[0], ServiceResponse::Pong));
    assert!(matches!(responses[1], ServiceResponse::Stopped));
    assert_eq!(manager.service_phase(0), ServicePhase::Stopped);
    assert_eq!(manager.service_phase(1), ServicePhase::Stopped);
}

#[test]
fn shutdown_terminates_with_no_capability_registered() {
    let mut manager = ServiceManager::new();
    let responses = host_run(&mut manager, vec![ServiceMessage::Stop]);
    assert_eq!(responses.len(), 1);
    assert!(matches!(responses[0], ServiceResponse::Stopped));
}

#[test]
fn disconnect_still_stops_all_capabilities() {
    let mut manager = manager_with_both();
    // The inbound sequence ends without a shutdown request: the caller
    // side just went away. Capability cleanup still runs.
    let responses = host_run(&mut manager, vec![ServiceMessage::Ping, cube_message("Box")]);
    assert_eq!(responses.len(), 2);
    assert_eq!(manager.service_phase(0), ServicePhase::Stopped);
    assert_eq!(manager.service_phase(1), ServicePhase::Stopped);
}

#[test]
fn host_step_routes_and_replies() {
    let mut manager = manager_with_both();
    match host_step(&mut manager, HostEvent::Message(ServiceMessage::Ping)) {
        HostAction::Reply(ServiceResponse::Pong) => {}
        _ => panic!("Expected a pong reply"),
    }
    match host_step(&mut manager, HostEvent::Message(ServiceMessage::Stop)) {
        HostAction::ReplyAndExit(ServiceResponse::Stopped) => {}
        _ => panic!("Expected a stopped reply with exit"),
    }
    assert_eq!(manager.service_phase(0), ServicePhase::Stopped);

    let mut manager = manager_with_both();
    match host_step(&mut manager, HostEvent::Disconnected) {
        HostAction::Exit => {}
        _ => panic!("Expected a silent exit"),
    }
    assert_eq!(manager.service_phase(1), ServicePhase::Stopped);
}

#[test]
fn test_ping_pong() {
    // The two bridge halves, pumped on one thread: the caller sends, the
    // host picks the request up, routes it, and sends the response back.
    let (mut bridge, async_bridge) = PyBridge::new();
    assert!(bridge.begin_start());

    bridge
        .send(ServiceMessage::Ping)
        .expect("Failed to send ping message");

    let mut manager = manager_with_both();
    let request = async_bridge.try_recv().expect("No request queued");
    match host_step(&mut manager, HostEvent::Message(request)) {
        HostAction::Reply(response) => {
            async_bridge.send(response).expect("Failed to send response");
        }
        _ => panic!("Expected a reply"),
    }

    if let Some(response) = bridge.try_recv() {
        match response {
            ServiceResponse::Pong => println!("Received pong!"),
            _ => panic!("Expected pong response"),
        }
    } else {
        panic!("No response received");
    }

    assert!(bridge.stop());
}

#[test]
fn try_recv_is_nonblocking_and_empty_at_first() {
    let (bridge, _async_bridge) = PyBridge::new();
    assert!(bridge.try_recv().is_none());
}

#[test]
fn send_fails_with_message_back_when_host_is_gone() {
    let (bridge, async_bridge) = PyBridge::new();
    drop(async_bridge);
    let unsent = bridge
        .send(ServiceMessage::Ping)
        .expect_err("Expected send to a dead host to fail");
    assert!(matches!(unsent, ServiceMessage::Ping));
}

#[test]
fn stop_is_idempotent() {
    let (mut bridge, async_bridge) = PyBridge::new();
    assert_eq!(bridge.state(), BridgeState::NotStarted);
    assert!(bridge.begin_start());
    assert_eq!(bridge.state(), BridgeState::Running);

    // The first stop finds the running host and asks for one join.
    assert!(bridge.stop());
    assert_eq!(bridge.state(), BridgeState::Stopped);
    // The second finds nothing: no second join attempt, no error.
    assert!(!bridge.stop());
    assert_eq!(bridge.state(), BridgeState::Stopped);
    drop(async_bridge);
}

#[test]
fn second_start_is_refused() {
    let (mut bridge, _async_bridge) = PyBridge::new();
    assert!(bridge.begin_start());
    assert!(!bridge.begin_start());

    // Stopping before any start joins nothing and keeps the bridge
    // startable, matching a handle that never spawned a thread.
    let (mut fresh, _other) = PyBridge::new();
    assert!(!fresh.stop());
    assert_eq!(fresh.state(), BridgeState::NotStarted);
}
