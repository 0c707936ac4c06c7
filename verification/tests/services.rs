use cuttle::protocol::{
    AssignMaterialParams, CreateCubeParams, CreateMaterialParams, Fixed, GetObjectParams,
    ServiceMessage, ServiceResponse, Vec3,
};
use cuttle::protocol::Color;
use cuttle::service::{
    BlenderService, PingService, RegisteredService, Service, ServiceManager, ServicePhase,
};

fn cube_message(name: &str, size_milli: i64) -> ServiceMessage {
    ServiceMessage::CreateCube(CreateCubeParams {
        location: Vec3::zero(),
        name: name.to_string(),
        size: Fixed::from_milli(size_milli),
    })
}

#[test]
fn test_service_manager() {
    let mut manager = ServiceManager::new();

    // Add a test service
    manager.add_service(RegisteredService::Ping(PingService::new("test".to_string())));

    // Start all services
    manager.start_all().expect("Failed to start services");

    // Test message handling
    let response = manager.handle_message(ServiceMessage::Ping);
    match response {
        ServiceResponse::Pong => println!("Got pong response"),
        _ => panic!("Expected pong response"),
    }

    // Stop all services
    manager.stop_all().expect("Failed to stop services");
}

#[test]
fn test_ping_service() {
    let mut service = PingService::new("test".to_string());

    service.start().expect("Failed to start ping service");

    let response = service.handle_message(ServiceMessage::Ping);
    match response {
        ServiceResponse::Pong => println!("PingService responded correctly"),
        _ => panic!("Expected pong response"),
    }

    service.stop().expect("Failed to stop ping service");
}

#[test]
fn start_and_stop_follow_registration_order_phases() {
    let mut manager = ServiceManager::new();
    manager.add_service(RegisteredService::Ping(PingService::new("a".to_string())));
    manager.add_service(RegisteredService::Blender(BlenderService::new("b".to_string())));
    assert_eq!(manager.len(), 2);
    assert_eq!(manager.service_phase(0), ServicePhase::Created);
    assert_eq!(manager.service_phase(1), ServicePhase::Created);

    manager.start_all().expect("Failed to start services");
    assert_eq!(manager.service_phase(0), ServicePhase::Started);
    assert_eq!(manager.service_phase(1), ServicePhase::Started);

    manager.stop_all().expect("Failed to stop services");
    assert_eq!(manager.service_phase(0), ServicePhase::Stopped);
    assert_eq!(manager.service_phase(1), ServicePhase::Stopped);
}

#[test]
fn routing_passes_over_erroring_capability() {
    // The liveness capability declines every scene request; the scene
    // capability behind it answers, and its success is what comes back.
    let mut manager = ServiceManager::new();
    manager.add_service(RegisteredService::Ping(PingService::new("front".to_string())));
    manager.add_service(RegisteredService::Blender(BlenderService::new("scene".to_string())));

    let response = manager.handle_message(cube_message("TestCube", 2000));
    assert!(matches!(response, ServiceResponse::Created));
}

#[test]
fn routing_first_registered_wins() {
    // Two scene capabilities: the first one receives every scene request,
    // so the object lands in the first and queries are answered by it.
    let mut manager = ServiceManager::new();
    manager.add_service(RegisteredService::Blender(BlenderService::new("first".to_string())));
    let response = manager.handle_message(cube_message("Keep", 1000));
    assert!(matches!(response, ServiceResponse::Created));

    manager.add_service(RegisteredService::Blender(BlenderService::new("second".to_string())));
    let response = manager.handle_message(ServiceMessage::GetObject(GetObjectParams {
        name: "Keep".to_string(),
    }));
    // The first capability holds the object; had routing preferred the
    // second (empty) capability's error, this would be an error response.
    match response {
        ServiceResponse::ObjectData(data) => assert_eq!(data.name, "Keep"),
        other => panic!("Expected object data, got {:?}", response_kind(&other)),
    }
}

#[test]
fn routing_with_no_capability_yields_generic_error() {
    let mut manager = ServiceManager::new();
    let response = manager.handle_message(cube_message("Orphan", 1000));
    match response {
        ServiceResponse::Error(message) => {
            assert_eq!(message, "No service available to handle message");
        }
        other => panic!("Expected error response, got {:?}", response_kind(&other)),
    }
}

#[test]
fn ping_service_declines_scene_requests() {
    let mut service = PingService::new("only".to_string());
    let response = service.handle_message(cube_message("Cube", 1000));
    match response {
        ServiceResponse::Error(message) => {
            assert_eq!(message, "PingService doesn't handle this message type");
        }
        other => panic!("Expected error response, got {:?}", response_kind(&other)),
    }
}

#[test]
fn blender_service_declines_liveness_probe() {
    let mut service = BlenderService::new("scene".to_string());
    let response = service.handle_message(ServiceMessage::Ping);
    match response {
        ServiceResponse::Error(message) => {
            assert_eq!(message, "BlenderService doesn't handle this message type");
        }
        other => panic!("Expected error response, got {:?}", response_kind(&other)),
    }
}

#[test]
fn liveness_is_answered_by_the_manager_in_any_state() {
    // No capabilities at all.
    let mut empty = ServiceManager::new();
    assert!(matches!(empty.handle_message(ServiceMessage::Ping), ServiceResponse::Pong));

    // Several capabilities, before and after start and stop.
    let mut manager = ServiceManager::new();
    manager.add_service(RegisteredService::Ping(PingService::new("a".to_string())));
    manager.add_service(RegisteredService::Blender(BlenderService::new("b".to_string())));
    assert!(matches!(manager.handle_message(ServiceMessage::Ping), ServiceResponse::Pong));
    manager.start_all().expect("Failed to start services");
    assert!(matches!(manager.handle_message(ServiceMessage::Ping), ServiceResponse::Pong));
    manager.stop_all().expect("Failed to stop services");
    assert!(matches!(manager.handle_message(ServiceMessage::Ping), ServiceResponse::Pong));
}

#[test]
fn scenario_create_and_query_box() {
    let mut manager = scene_manager();
    let response = manager.handle_message(cube_message("TestCube", 2000));
    assert!(matches!(response, ServiceResponse::Created));

    let response = manager.handle_message(ServiceMessage::GetObject(GetObjectParams {
        name: "TestCube".to_string(),
    }));
    match response {
        ServiceResponse::ObjectData(data) => {
            assert_eq!(data.object_type, "MESH");
            assert_eq!(data.location, Vec3::zero());
            assert_eq!(data.vertex_count, Some(8));
            assert_eq!(data.face_count, Some(6));
        }
        other => panic!("Expected object data, got {:?}", response_kind(&other)),
    }
}

#[test]
fn scenario_material_shows_up_on_object() {
    let mut manager = scene_manager();
    assert!(matches!(
        manager.handle_message(cube_message("TestCube", 2000)),
        ServiceResponse::Created
    ));
    let response = manager.handle_message(ServiceMessage::CreateMaterial(CreateMaterialParams {
        name: "TestMaterial".to_string(),
        base_color: Color::new(
            Fixed::from_milli(800),
            Fixed::from_milli(200),
            Fixed::from_milli(200),
            Fixed::from_milli(1000),
        ),
        metallic: Fixed::from_milli(0),
        roughness: Fixed::from_milli(500),
    }));
    assert!(matches!(response, ServiceResponse::Created));
    let response = manager.handle_message(ServiceMessage::AssignMaterial(AssignMaterialParams {
        object_name: "TestCube".to_string(),
        material_name: "TestMaterial".to_string(),
    }));
    assert!(matches!(response, ServiceResponse::Created));

    let response = manager.handle_message(ServiceMessage::GetObject(GetObjectParams {
        name: "TestCube".to_string(),
    }));
    match response {
        ServiceResponse::ObjectData(data) => {
            assert_eq!(data.materials, vec!["TestMaterial"]);
        }
        other => panic!("Expected object data, got {:?}", response_kind(&other)),
    }
}

#[test]
fn scenario_assigning_unknown_material_is_an_error() {
    let mut manager = scene_manager();
    assert!(matches!(
        manager.handle_message(cube_message("TestCube", 2000)),
        ServiceResponse::Created
    ));
    let response = manager.handle_message(ServiceMessage::AssignMaterial(AssignMaterialParams {
        object_name: "TestCube".to_string(),
        material_name: "NeverMade".to_string(),
    }));
    match response {
        ServiceResponse::Error(message) => {
            assert_eq!(message, "Material not found: NeverMade");
        }
        other => panic!("Expected error response, got {:?}", response_kind(&other)),
    }
}

#[test]
fn scenario_clear_scene_keeps_materials() {
    let mut manager = scene_manager();
    assert!(matches!(
        manager.handle_message(cube_message("One", 1000)),
        ServiceResponse::Created
    ));
    assert!(matches!(
        manager.handle_message(cube_message("Two", 1000)),
        ServiceResponse::Created
    ));
    assert!(matches!(
        manager.handle_message(ServiceMessage::CreateMaterial(CreateMaterialParams {
            name: "Kept".to_string(),
            base_color: Color::white(),
            metallic: Fixed::from_milli(0),
            roughness: Fixed::from_milli(500),
        })),
        ServiceResponse::Created
    ));

    assert!(matches!(
        manager.handle_message(ServiceMessage::ClearScene),
        ServiceResponse::SceneCleared
    ));

    match manager.handle_message(ServiceMessage::ListObjects) {
        ServiceResponse::ObjectList(objects) => assert!(objects.is_empty()),
        other => panic!("Expected object list, got {:?}", response_kind(&other)),
    }
    match manager.handle_message(ServiceMessage::ListMaterials) {
        ServiceResponse::MaterialList(materials) => assert_eq!(materials, vec!["Kept"]),
        other => panic!("Expected material list, got {:?}", response_kind(&other)),
    }
}

fn scene_manager() -> ServiceManager {
    let mut manager = ServiceManager::new();
    manager.add_service(RegisteredService::Blender(BlenderService::new("scene".to_string())));
    manager.start_all().expect("Failed to start services");
    manager
}

fn response_kind(response: &ServiceResponse) -> &'static str {
    match response {
        ServiceResponse::Pong => "Pong",
        ServiceResponse::Stopped => "Stopped",
        ServiceResponse::Created => "Created",
        ServiceResponse::ObjectData(_) => "ObjectData",
        ServiceResponse::MaterialData(_) => "MaterialData",
        ServiceResponse::ObjectList(_) => "ObjectList",
        ServiceResponse::MaterialList(_) => "MaterialList",
        ServiceResponse::MeshList(_) => "MeshList",
        ServiceResponse::SceneCleared => "SceneCleared",
        ServiceResponse::Error(_) => "Error",
    }
}
