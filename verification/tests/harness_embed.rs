use cuttle::embed::{message_from_name, response_name};
use cuttle::harness::{
    get_validation_by_name, get_validation_suite, material_found, object_found, step_message,
    step_succeeded, ValidationStep,
};
use cuttle::protocol::{
    Fixed, MaterialData, ObjectData, ServiceMessage, ServiceResponse, Vec3,
};
use cuttle::protocol::Color;
use cuttle::service::ServiceError;

#[test]
fn suite_holds_the_three_cases_in_order() {
    let suite = get_validation_suite();
    assert_eq!(suite.len(), 3);
    assert_eq!(suite[0].name, "basic_geometry");
    assert_eq!(suite[1].name, "multi_object");
    assert_eq!(suite[2].name, "material_properties");
    assert_eq!(suite[0].steps.len(), 4);
    assert_eq!(suite[1].steps.len(), 7);
    assert_eq!(suite[2].steps.len(), 4);
    assert_eq!(suite[1].expected_objects, vec!["RedCube", "BlueSphere"]);
    assert_eq!(suite[1].expected_materials, vec!["RedMaterial", "BlueMaterial"]);
}

#[test]
fn validation_lookup_by_name() {
    let found = get_validation_by_name("basic_geometry").expect("Expected the case");
    assert_eq!(found.name, "basic_geometry");
    assert_eq!(found.expected_objects, vec!["TestCube"]);
    assert!(get_validation_by_name("no_such_case").is_none());
}

#[test]
fn step_messages_carry_the_step_parameters() {
    let step = ValidationStep::CreateCube {
        name: "TestCube".to_string(),
        location: Vec3::zero(),
        size: Fixed::from_milli(2000),
    };
    match step_message(&step) {
        ServiceMessage::CreateCube(params) => {
            assert_eq!(params.name, "TestCube");
            assert_eq!(params.size, Fixed::from_milli(2000));
            assert_eq!(params.location, Vec3::zero());
        }
        _ => panic!("Expected a create-cube request"),
    }

    assert!(matches!(step_message(&ValidationStep::ClearScene), ServiceMessage::ClearScene));

    let step = ValidationStep::AssignMaterial {
        object_name: "A".to_string(),
        material_name: "M".to_string(),
    };
    match step_message(&step) {
        ServiceMessage::AssignMaterial(params) => {
            assert_eq!(params.object_name, "A");
            assert_eq!(params.material_name, "M");
        }
        _ => panic!("Expected an assign-material request"),
    }
}

#[test]
fn step_and_expectation_judgements() {
    assert!(step_succeeded(&ServiceResponse::Created));
    assert!(step_succeeded(&ServiceResponse::SceneCleared));
    assert!(!step_succeeded(&ServiceResponse::Pong));
    assert!(!step_succeeded(&ServiceResponse::Error("boom".to_string())));

    let object = ObjectData {
        name: "X".to_string(),
        object_type: "MESH".to_string(),
        location: Vec3::zero(),
        rotation: Vec3::zero(),
        scale: Vec3::zero(),
        materials: vec![],
        vertex_count: Some(8),
        face_count: Some(6),
    };
    assert!(object_found(&ServiceResponse::ObjectData(object)));
    assert!(!object_found(&ServiceResponse::Error("missing".to_string())));

    let material = MaterialData {
        name: "M".to_string(),
        use_nodes: true,
        base_color: Color::white(),
        metallic: Fixed::from_milli(0),
        roughness: Fixed::from_milli(500),
        node_count: 1,
    };
    assert!(material_found(&ServiceResponse::MaterialData(material)));
    assert!(!material_found(&ServiceResponse::Created));
}

#[test]
fn command_names_map_to_probe_requests() {
    assert!(matches!(message_from_name("ping"), Some(ServiceMessage::Ping)));
    assert!(matches!(message_from_name("stop"), Some(ServiceMessage::Stop)));
    assert!(message_from_name("restart").is_none());
    assert!(message_from_name("").is_none());
}

#[test]
fn responses_render_as_their_names() {
    assert_eq!(response_name(&ServiceResponse::Pong), "pong");
    assert_eq!(response_name(&ServiceResponse::Stopped), "stopped");
    assert_eq!(response_name(&ServiceResponse::Created), "created");
    assert_eq!(response_name(&ServiceResponse::SceneCleared), "scene_cleared");
    assert_eq!(response_name(&ServiceResponse::ObjectList(vec![])), "objects");
    assert_eq!(response_name(&ServiceResponse::MaterialList(vec![])), "materials");
    assert_eq!(response_name(&ServiceResponse::MeshList(vec![])), "meshes");
    assert_eq!(
        response_name(&ServiceResponse::Error("channel closed".to_string())),
        "error: channel closed"
    );
}

#[test]
fn service_errors_render_their_messages() {
    assert_eq!(
        ServiceError::StartupError("no device".to_string()).message(),
        "Service failed to start: no device"
    );
    assert_eq!(
        ServiceError::ShutdownError("still busy".to_string()).message(),
        "Service failed to stop: still busy"
    );
    assert_eq!(
        ServiceError::RuntimeError("lost".to_string()).message(),
        "Service error: lost"
    );
}
