use cuttle::protocol::{
    AssignMaterialParams, BlenderApiError, Color, CreateCubeParams, CreateMaterialParams,
    CreateSphereParams, Fixed, GetMaterialParams, GetObjectParams, Vec3,
};
use cuttle::scene::MockBlenderApi;

#[test]
fn test_create_cube() {
    let mut api = MockBlenderApi::new();

    let params = CreateCubeParams {
        location: Vec3::new(Fixed::from_milli(1000), Fixed::from_milli(2000), Fixed::from_milli(3000)),
        name: "TestCube".to_string(),
        size: Fixed::from_milli(2000),
    };

    api.create_cube(params).expect("Failed to create cube");

    let objects = api.list_objects().expect("Failed to list objects");
    assert_eq!(objects, vec!["TestCube"]);

    let cube = api
        .get_object(GetObjectParams {
            name: "TestCube".to_string(),
        })
        .expect("Failed to get cube");
    assert_eq!(cube.name, "TestCube");
    assert_eq!(cube.location.x, Fixed::from_milli(1000));
    assert_eq!(cube.vertex_count, Some(8));
}

#[test]
fn test_create_material_and_assign() {
    let mut api = MockBlenderApi::new();

    api.create_cube(CreateCubeParams {
        location: Vec3::zero(),
        name: "TestCube".to_string(),
        size: Fixed::from_milli(1000),
    })
    .expect("Failed to create cube");

    api.create_material(CreateMaterialParams {
        name: "TestMaterial".to_string(),
        base_color: Color::red(),
        metallic: Fixed::from_milli(0),
        roughness: Fixed::from_milli(500),
    })
    .expect("Failed to create material");

    api.assign_material(AssignMaterialParams {
        object_name: "TestCube".to_string(),
        material_name: "TestMaterial".to_string(),
    })
    .expect("Failed to assign material");

    let cube = api
        .get_object(GetObjectParams {
            name: "TestCube".to_string(),
        })
        .expect("Failed to get cube");
    assert_eq!(cube.materials, vec!["TestMaterial"]);
}

#[test]
fn test_clear_scene() {
    let mut api = MockBlenderApi::new();

    api.create_cube(CreateCubeParams {
        location: Vec3::zero(),
        name: "Cube1".to_string(),
        size: Fixed::from_milli(1000),
    })
    .expect("Failed to create cube1");

    api.create_sphere(CreateSphereParams {
        location: Vec3::new(Fixed::from_milli(2000), Fixed::from_milli(0), Fixed::from_milli(0)),
        name: "Sphere1".to_string(),
        radius: Fixed::from_milli(1000),
        subdivisions: 2,
    })
    .expect("Failed to create sphere");

    let objects_before = api.list_objects().expect("Failed to list objects");
    assert_eq!(objects_before.len(), 2);

    // Clear scene
    api.clear_scene().expect("Failed to clear scene");

    let objects_after = api.list_objects().expect("Failed to list objects");
    assert_eq!(objects_after.len(), 0);
}

#[test]
fn sphere_counts_follow_subdivisions() {
    let mut api = MockBlenderApi::new();
    api.create_sphere(CreateSphereParams {
        location: Vec3::zero(),
        name: "Ball".to_string(),
        radius: Fixed::from_milli(1500),
        subdivisions: 3,
    })
    .expect("Failed to create sphere");

    let ball = api
        .get_object(GetObjectParams { name: "Ball".to_string() })
        .expect("Failed to get sphere");
    assert_eq!(ball.vertex_count, Some(36));
    assert_eq!(ball.face_count, Some(36));
    assert_eq!(ball.scale, Vec3::new(Fixed::from_milli(1500), Fixed::from_milli(1500), Fixed::from_milli(1500)));
}

#[test]
fn sphere_subdivisions_over_limit_are_invalid() {
    let mut api = MockBlenderApi::new();
    let err = api
        .create_sphere(CreateSphereParams {
            location: Vec3::zero(),
            name: "Huge".to_string(),
            radius: Fixed::from_milli(1000),
            subdivisions: 40000,
        })
        .expect_err("Expected invalid parameters");
    assert_eq!(
        err.message(),
        "Invalid parameters: sphere subdivisions exceed the supported maximum"
    );
    assert_eq!(api.list_objects().expect("Failed to list objects").len(), 0);
}

#[test]
fn recreating_an_object_replaces_it() {
    let mut api = MockBlenderApi::new();
    for size in [1000i64, 3000i64] {
        api.create_cube(CreateCubeParams {
            location: Vec3::zero(),
            name: "Box".to_string(),
            size: Fixed::from_milli(size),
        })
        .expect("Failed to create cube");
    }
    let objects = api.list_objects().expect("Failed to list objects");
    assert_eq!(objects, vec!["Box"]);
    let cube = api
        .get_object(GetObjectParams { name: "Box".to_string() })
        .expect("Failed to get cube");
    assert_eq!(cube.scale.x, Fixed::from_milli(3000));
}

#[test]
fn assign_material_error_cases() {
    let mut api = MockBlenderApi::new();
    api.create_cube(CreateCubeParams {
        location: Vec3::zero(),
        name: "Solo".to_string(),
        size: Fixed::from_milli(1000),
    })
    .expect("Failed to create cube");

    let err = api
        .assign_material(AssignMaterialParams {
            object_name: "Solo".to_string(),
            material_name: "Ghostly".to_string(),
        })
        .expect_err("Expected missing material");
    assert!(matches!(err, BlenderApiError::MaterialNotFound { .. }));
    assert_eq!(err.message(), "Material not found: Ghostly");

    api.create_material(CreateMaterialParams {
        name: "Paint".to_string(),
        base_color: Color::white(),
        metallic: Fixed::from_milli(0),
        roughness: Fixed::from_milli(500),
    })
    .expect("Failed to create material");
    let err = api
        .assign_material(AssignMaterialParams {
            object_name: "Nobody".to_string(),
            material_name: "Paint".to_string(),
        })
        .expect_err("Expected missing object");
    assert_eq!(err.message(), "Object not found: Nobody");
}

#[test]
fn get_material_returns_record() {
    let mut api = MockBlenderApi::new();
    api.create_material(CreateMaterialParams {
        name: "Steel".to_string(),
        base_color: Color::new(
            Fixed::from_milli(700),
            Fixed::from_milli(700),
            Fixed::from_milli(700),
            Fixed::from_milli(1000),
        ),
        metallic: Fixed::from_milli(1000),
        roughness: Fixed::from_milli(100),
    })
    .expect("Failed to create material");

    let material = api
        .get_material(GetMaterialParams { name: "Steel".to_string() })
        .expect("Failed to get material");
    assert_eq!(material.name, "Steel");
    assert!(material.use_nodes);
    assert_eq!(material.node_count, 1);
    assert_eq!(material.metallic, Fixed::from_milli(1000));
    assert_eq!(material.roughness, Fixed::from_milli(100));

    let err = api
        .get_material(GetMaterialParams { name: "Wood".to_string() })
        .expect_err("Expected missing material");
    assert_eq!(err.message(), "Material not found: Wood");
}

#[test]
fn list_meshes_names_mesh_objects() {
    let mut api = MockBlenderApi::new();
    api.create_cube(CreateCubeParams {
        location: Vec3::zero(),
        name: "A".to_string(),
        size: Fixed::from_milli(1000),
    })
    .expect("Failed to create cube");
    api.create_sphere(CreateSphereParams {
        location: Vec3::zero(),
        name: "B".to_string(),
        radius: Fixed::from_milli(1000),
        subdivisions: 2,
    })
    .expect("Failed to create sphere");

    let meshes = api.list_meshes().expect("Failed to list meshes");
    assert_eq!(meshes, vec!["A", "B"]);
}

#[test]
fn api_error_messages_render_each_variant() {
    assert_eq!(
        BlenderApiError::ObjectNotFound { name: "X".to_string() }.message(),
        "Object not found: X"
    );
    assert_eq!(
        BlenderApiError::MaterialNotFound { name: "M".to_string() }.message(),
        "Material not found: M"
    );
    assert_eq!(
        BlenderApiError::OperationFailed { message: "disk full".to_string() }.message(),
        "Operation failed: disk full"
    );
    assert_eq!(
        BlenderApiError::InvalidParameters { message: "bad size".to_string() }.message(),
        "Invalid parameters: bad size"
    );
}
