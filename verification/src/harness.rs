//! The validation suite: named scripted cases the command-line harness
//! drives through the bridge, and the pure decisions of the harness — what
//! message a step sends and how a response is judged.
//!
//! The harness itself (channel polling, timeouts, reporting) lives with
//! the embedding; it sends `step_message(step)`, polls for the one
//! response, and aborts the case's remaining steps when `step_succeeded`
//! denies it.

use vstd::prelude::*;
use vstd::seq_lib::*;
use crate::protocol::{
    AssignMaterialParams, Color, CreateCubeParams, CreateMaterialParams, CreateSphereParams, Fixed,
    MessageView, ServiceMessage, ServiceResponse, Vec3,
};

verus! {

/// One scripted operation of a validation case.
#[derive(Debug)]
pub enum ValidationStep {
    ClearScene,
    CreateCube { name: String, location: Vec3, size: Fixed },
    CreateSphere { name: String, location: Vec3, radius: Fixed, subdivisions: u32 },
    CreateMaterial { name: String, color: Color, metallic: Fixed, roughness: Fixed },
    AssignMaterial { object_name: String, material_name: String },
}

#[verifier::ext_equal]
pub enum ValidationStepView {
    ClearScene,
    CreateCube { name: Seq<char>, location: Vec3, size: Fixed },
    CreateSphere { name: Seq<char>, location: Vec3, radius: Fixed, subdivisions: u32 },
    CreateMaterial { name: Seq<char>, color: Color, metallic: Fixed, roughness: Fixed },
    AssignMaterial { object_name: Seq<char>, material_name: Seq<char> },
}

impl View for ValidationStep {
    type V = ValidationStepView;

    open spec fn view(&self) -> ValidationStepView {
        match self {
            ValidationStep::ClearScene => ValidationStepView::ClearScene,
            ValidationStep::CreateCube { name, location, size } => ValidationStepView::CreateCube {
                name: name@,
                location: *location,
                size: *size,
            },
            ValidationStep::CreateSphere { name, location, radius, subdivisions } => (
                ValidationStepView::CreateSphere {
                    name: name@,
                    location: *location,
                    radius: *radius,
                    subdivisions: *subdivisions,
                }
            ),
            ValidationStep::CreateMaterial { name, color, metallic, roughness } => (
                ValidationStepView::CreateMaterial {
                    name: name@,
                    color: *color,
                    metallic: *metallic,
                    roughness: *roughness,
                }
            ),
            ValidationStep::AssignMaterial { object_name, material_name } => (
                ValidationStepView::AssignMaterial {
                    object_name: object_name@,
                    material_name: material_name@,
                }
            ),
        }
    }
}

impl DeepView for ValidationStep {
    type V = ValidationStepView;

    open spec fn deep_view(&self) -> ValidationStepView {
        self.view()
    }
}

/// One named validation case: its script and what must exist afterwards.
#[derive(Debug)]
pub struct ValidationCase {
    pub name: String,
    pub description: String,
    pub steps: Vec<ValidationStep>,
    pub expected_objects: Vec<String>,
    pub expected_materials: Vec<String>,
}

#[verifier::ext_equal]
pub struct ValidationCaseView {
    pub name: Seq<char>,
    pub description: Seq<char>,
    pub steps: Seq<ValidationStepView>,
    pub expected_objects: Seq<Seq<char>>,
    pub expected_materials: Seq<Seq<char>>,
}

impl View for ValidationCase {
    type V = ValidationCaseView;

    open spec fn view(&self) -> ValidationCaseView {
        ValidationCaseView {
            name: self.name@,
            description: self.description@,
            steps: self.steps.deep_view(),
            expected_objects: self.expected_objects.deep_view(),
            expected_materials: self.expected_materials.deep_view(),
        }
    }
}

impl DeepView for ValidationCase {
    type V = ValidationCaseView;

    open spec fn deep_view(&self) -> ValidationCaseView {
        self.view()
    }
}

/// The request a validation step sends across the bridge.
pub open spec fn spec_step_message(s: ValidationStepView) -> MessageView {
    match s {
        ValidationStepView::ClearScene => MessageView::ClearScene,
        ValidationStepView::CreateCube { name, location, size } => MessageView::CreateCube(
            crate::protocol::CreateCubeParamsView { location, name, size },
        ),
        ValidationStepView::CreateSphere { name, location, radius, subdivisions } => (
            MessageView::CreateSphere(
                crate::protocol::CreateSphereParamsView { location, name, radius, subdivisions },
            )
        ),
        ValidationStepView::CreateMaterial { name, color, metallic, roughness } => (
            MessageView::CreateMaterial(
                crate::protocol::CreateMaterialParamsView {
                    name,
                    base_color: color,
                    metallic,
                    roughness,
                },
            )
        ),
        ValidationStepView::AssignMaterial { object_name, material_name } => (
            MessageView::AssignMaterial(
                crate::protocol::AssignMaterialParamsView { object_name, material_name },
            )
        ),
    }
}

/// Builds the request for one validation step.
pub fn step_message(step: &ValidationStep) -> (m: ServiceMessage)
    ensures
        m@ == spec_step_message(step@),
{
    match step {
        ValidationStep::ClearScene => ServiceMessage::ClearScene,
        ValidationStep::CreateCube { name, location, size } => ServiceMessage::CreateCube(
            CreateCubeParams { location: *location, name: name.clone(), size: *size },
        ),
        ValidationStep::CreateSphere { name, location, radius, subdivisions } => (
            ServiceMessage::CreateSphere(
                CreateSphereParams {
                    location: *location,
                    name: name.clone(),
                    radius: *radius,
                    subdivisions: *subdivisions,
                },
            )
        ),
        ValidationStep::CreateMaterial { name, color, metallic, roughness } => (
            ServiceMessage::CreateMaterial(
                CreateMaterialParams {
                    name: name.clone(),
                    base_color: *color,
                    metallic: *metallic,
                    roughness: *roughness,
                },
            )
        ),
        ValidationStep::AssignMaterial { object_name, material_name } => (
            ServiceMessage::AssignMaterial(
                AssignMaterialParams {
                    object_name: object_name.clone(),
                    material_name: material_name.clone(),
                },
            )
        ),
    }
}

/// The cube-and-material case: one cube, one material, one assignment.
pub open spec fn spec_basic_geometry_case() -> ValidationCaseView {
    ValidationCaseView {
        name: "basic_geometry"@,
        description: "Validate basic cube creation with material assignment"@,
        steps: seq![
            ValidationStepView::ClearScene,
            ValidationStepView::CreateCube {
                name: "TestCube"@,
                location: Vec3 { x: Fixed { milli: 0 }, y: Fixed { milli: 0 }, z: Fixed { milli: 0 } },
                size: Fixed { milli: 2000 },
            },
            ValidationStepView::CreateMaterial {
                name: "TestMaterial"@,
                color: crate::protocol::spec_color_red(),
                metallic: Fixed { milli: 0 },
                roughness: Fixed { milli: 500 },
            },
            ValidationStepView::AssignMaterial {
                object_name: "TestCube"@,
                material_name: "TestMaterial"@,
            },
        ],
        expected_objects: seq!["TestCube"@],
        expected_materials: seq!["TestMaterial"@],
    }
}

/// The two-object case: a cube and a sphere, each with its own material.
pub open spec fn spec_multi_object_case() -> ValidationCaseView {
    ValidationCaseView {
        name: "multi_object"@,
        description: "Validate multiple objects with different materials"@,
        steps: seq![
            ValidationStepView::ClearScene,
            ValidationStepView::CreateCube {
                name: "RedCube"@,
                location: Vec3 {
                    x: Fixed { milli: -2000i64 },
                    y: Fixed { milli: 0 },
                    z: Fixed { milli: 0 },
                },
                size: Fixed { milli: 1000 },
            },
            ValidationStepView::CreateSphere {
                name: "BlueSphere"@,
                location: Vec3 {
                    x: Fixed { milli: 2000 },
                    y: Fixed { milli: 0 },
                    z: Fixed { milli: 0 },
                },
                radius: Fixed { milli: 1000 },
                subdivisions: 3,
            },
            ValidationStepView::CreateMaterial {
                name: "RedMaterial"@,
                color: Color {
                    r: Fixed { milli: 800 },
                    g: Fixed { milli: 200 },
                    b: Fixed { milli: 200 },
                    a: Fixed { milli: 1000 },
                },
                metallic: Fixed { milli: 0 },
                roughness: Fixed { milli: 400 },
            },
            ValidationStepView::CreateMaterial {
                name: "BlueMaterial"@,
                color: Color {
                    r: Fixed { milli: 200 },
                    g: Fixed { milli: 200 },
                    b: Fixed { milli: 800 },
                    a: Fixed { milli: 1000 },
                },
                metallic: Fixed { milli: 100 },
                roughness: Fixed { milli: 300 },
            },
            ValidationStepView::AssignMaterial {
                object_name: "RedCube"@,
                material_name: "RedMaterial"@,
            },
            ValidationStepView::AssignMaterial {
                object_name: "BlueSphere"@,
                material_name: "BlueMaterial"@,
            },
        ],
        expected_objects: seq!["RedCube"@, "BlueSphere"@],
        expected_materials: seq!["RedMaterial"@, "BlueMaterial"@],
    }
}

/// The material-properties case: a metallic, low-roughness material.
pub open spec fn spec_material_properties_case() -> ValidationCaseView {
    ValidationCaseView {
        name: "material_properties"@,
        description: "Validate different material properties and metallic/roughness values"@,
        steps: seq![
            ValidationStepView::ClearScene,
            ValidationStepView::CreateCube {
                name: "MetallicCube"@,
                location: Vec3 { x: Fixed { milli: 0 }, y: Fixed { milli: 0 }, z: Fixed { milli: 0 } },
                size: Fixed { milli: 1000 },
            },
            ValidationStepView::CreateMaterial {
                name: "MetallicMaterial"@,
                color: Color {
                    r: Fixed { milli: 700 },
                    g: Fixed { milli: 700 },
                    b: Fixed { milli: 700 },
                    a: Fixed { milli: 1000 },
                },
                metallic: Fixed { milli: 1000 },
                roughness: Fixed { milli: 100 },
            },
            ValidationStepView::AssignMaterial {
                object_name: "MetallicCube"@,
                material_name: "MetallicMaterial"@,
            },
        ],
        expected_objects: seq!["MetallicCube"@],
        expected_materials: seq!["MetallicMaterial"@],
    }
}

/// The whole suite, in the order the harness runs it.
pub open spec fn spec_validation_suite() -> Seq<ValidationCaseView> {
    seq![spec_basic_geometry_case(), spec_multi_object_case(), spec_material_properties_case()]
}

fn basic_geometry_case() -> (c: ValidationCase)
    ensures
        c@ == spec_basic_geometry_case(),
{
    let mut steps: Vec<ValidationStep> = Vec::new();
    steps.push(ValidationStep::ClearScene);
    steps.push(
        ValidationStep::CreateCube {
            name: "TestCube".to_owned(),
            location: Vec3::zero(),
            size: Fixed { milli: 2000 },
        },
    );
    steps.push(
        ValidationStep::CreateMaterial {
            name: "TestMaterial".to_owned(),
            color: Color::red(),
            metallic: Fixed { milli: 0 },
            roughness: Fixed { milli: 500 },
        },
    );
    steps.push(
        ValidationStep::AssignMaterial {
            object_name: "TestCube".to_owned(),
            material_name: "TestMaterial".to_owned(),
        },
    );
    let mut expected_objects: Vec<String> = Vec::new();
    expected_objects.push("TestCube".to_owned());
    let mut expected_materials: Vec<String> = Vec::new();
    expected_materials.push("TestMaterial".to_owned());
    let c = ValidationCase {
        name: "basic_geometry".to_owned(),
        description: "Validate basic cube creation with material assignment".to_owned(),
        steps,
        expected_objects,
        expected_materials,
    };
    proof {
        assert(c@.steps =~= spec_basic_geometry_case().steps);
        assert(c@.expected_objects =~= spec_basic_geometry_case().expected_objects);
        assert(c@.expected_materials =~= spec_basic_geometry_case().expected_materials);
        assert(c@ =~= spec_basic_geometry_case());
    }
    c
}

fn multi_object_case() -> (c: ValidationCase)
    ensures
        c@ == spec_multi_object_case(),
{
    let mut steps: Vec<ValidationStep> = Vec::new();
    steps.push(ValidationStep::ClearScene);
    steps.push(
        ValidationStep::CreateCube {
            name: "RedCube".to_owned(),
            location: Vec3 {
                x: Fixed { milli: -2000i64 },
                y: Fixed { milli: 0 },
                z: Fixed { milli: 0 },
            },
            size: Fixed { milli: 1000 },
        },
    );
    steps.push(
        ValidationStep::CreateSphere {
            name: "BlueSphere".to_owned(),
            location: Vec3 {
                x: Fixed { milli: 2000 },
                y: Fixed { milli: 0 },
                z: Fixed { milli: 0 },
            },
            radius: Fixed { milli: 1000 },
            subdivisions: 3,
        },
    );
    steps.push(
        ValidationStep::CreateMaterial {
            name: "RedMaterial".to_owned(),
            color: Color {
                r: Fixed { milli: 800 },
                g: Fixed { milli: 200 },
                b: Fixed { milli: 200 },
                a: Fixed { milli: 1000 },
            },
            metallic: Fixed { milli: 0 },
            roughness: Fixed { milli: 400 },
        },
    );
    steps.push(
        ValidationStep::CreateMaterial {
            name: "BlueMaterial".to_owned(),
            color: Color {
                r: Fixed { milli: 200 },
                g: Fixed { milli: 200 },
                b: Fixed { milli: 800 },
                a: Fixed { milli: 1000 },
            },
            metallic: Fixed { milli: 100 },
            roughness: Fixed { milli: 300 },
        },
    );
    steps.push(
        ValidationStep::AssignMaterial {
            object_name: "RedCube".to_owned(),
            material_name: "RedMaterial".to_owned(),
        },
    );
    steps.push(
        ValidationStep::AssignMaterial {
            object_name: "BlueSphere".to_owned(),
            material_name: "BlueMaterial".to_owned(),
        },
    );
    let mut expected_objects: Vec<String> = Vec::new();
    expected_objects.push("RedCube".to_owned());
    expected_objects.push("BlueSphere".to_owned());
    let mut expected_materials: Vec<String> = Vec::new();
    expected_materials.push("RedMaterial".to_owned());
    expected_materials.push("BlueMaterial".to_owned());
    let c = ValidationCase {
        name: "multi_object".to_owned(),
        description: "Validate multiple objects with different materials".to_owned(),
        steps,
        expected_objects,
        expected_materials,
    };
    proof {
        assert(c@.steps =~= spec_multi_object_case().steps);
        assert(c@.expected_objects =~= spec_multi_object_case().expected_objects);
        assert(c@.expected_materials =~= spec_multi_object_case().expected_materials);
        assert(c@ =~= spec_multi_object_case());
    }
    c
}

fn material_properties_case() -> (c: ValidationCase)
    ensures
        c@ == spec_material_properties_case(),
{
    let mut steps: Vec<ValidationStep> = Vec::new();
    steps.push(ValidationStep::ClearScene);
    steps.push(
        ValidationStep::CreateCube {
            name: "MetallicCube".to_owned(),
            location: Vec3::zero(),
            size: Fixed { milli: 1000 },
        },
    );
    steps.push(
        ValidationStep::CreateMaterial {
            name: "MetallicMaterial".to_owned(),
            color: Color {
                r: Fixed { milli: 700 },
                g: Fixed { milli: 700 },
                b: Fixed { milli: 700 },
                a: Fixed { milli: 1000 },
            },
            metallic: Fixed { milli: 1000 },
            roughness: Fixed { milli: 100 },
        },
    );
    steps.push(
        ValidationStep::AssignMaterial {
            object_name: "MetallicCube".to_owned(),
            material_name: "MetallicMaterial".to_owned(),
        },
    );
    let mut expected_objects: Vec<String> = Vec::new();
    expected_objects.push("MetallicCube".to_owned());
    let mut expected_materials: Vec<String> = Vec::new();
    expected_materials.push("MetallicMaterial".to_owned());
    let c = ValidationCase {
        name: "material_properties".to_owned(),
        description: "Validate different material properties and metallic/roughness values".to_owned(),
        steps,
        expected_objects,
        expected_materials,
    };
    proof {
        assert(c@.steps =~= spec_material_properties_case().steps);
        assert(c@.expected_objects =~= spec_material_properties_case().expected_objects);
        assert(c@.expected_materials =~= spec_material_properties_case().expected_materials);
        assert(c@ =~= spec_material_properties_case());
    }
    c
}

/// The validation suite, in running order.
pub fn get_validation_suite() -> (suite: Vec<ValidationCase>)
    ensures
        suite.deep_view() == spec_validation_suite(),
{
    let mut suite: Vec<ValidationCase> = Vec::new();
    suite.push(basic_geometry_case());
    suite.push(multi_object_case());
    suite.push(material_properties_case());
    proof {
        assert(suite.deep_view() =~= spec_validation_suite());
    }
    suite
}

/// Index of the first case of the given name in the suite, if any.
pub open spec fn spec_case_index(cases: Seq<ValidationCaseView>, name: Seq<char>) -> Option<int> {
    cases.map_values(|c: ValidationCaseView| c.name).index_of_first(name)
}

/// The named validation case, or nothing when the suite has no case of
/// that name.
pub fn get_validation_by_name(name: &str) -> (r: Option<ValidationCase>)
    ensures
        match r {
            Some(c) => spec_case_index(spec_validation_suite(), name@) matches Some(i) && c@
                == spec_validation_suite()[i],
            None => spec_case_index(spec_validation_suite(), name@) is None,
        },
{
    let name_owned: String = name.to_owned();
    let ghost names = spec_validation_suite().map_values(|c: ValidationCaseView| c.name);
    let mut suite = get_validation_suite();
    let mut i: usize = 0;
    while i < suite.len()
        invariant
            i <= suite@.len(),
            suite.deep_view() == spec_validation_suite(),
            suite@.len() == spec_validation_suite().len(),
            names == spec_validation_suite().map_values(|c: ValidationCaseView| c.name),
            name_owned@ == name@,
            forall|j: int| 0 <= j < i ==> names[j] != name@,
        decreases suite@.len() - i,
    {
        if suite[i].name == name_owned {
            proof {
                assert(names[i as int] == name@);
                names.index_of_first_ensures(name@);
                let k = names.index_of_first(name@)->Some_0;
                assert(!(k < i)) by {
                    if 0 <= k < i {
                        assert(names[k] != name@);
                    }
                }
                assert(!(k > i)) by {
                    if k > i {
                        assert(names[i as int] != name@);
                    }
                }
            }
            let c = suite.remove(i);
            return Some(c);
        }
        i = i + 1;
    }
    proof {
        names.index_of_first_ensures(name@);
        if names.index_of_first(name@) is Some {
            let k = names.index_of_first(name@)->Some_0;
            assert(names[k] != name@);
        }
    }
    None
}

/// Whether a response completes a validation step: only the plain
/// acknowledgements do; an error response fails the step, and a response
/// of any other variant is unexpected there.
pub fn step_succeeded(response: &ServiceResponse) -> (ok: bool)
    ensures
        ok == (response@ is Created || response@ is SceneCleared),
{
    match response {
        ServiceResponse::Created => true,
        ServiceResponse::SceneCleared => true,
        _ => false,
    }
}

/// Whether a response to an object query shows the expected object.
pub fn object_found(response: &ServiceResponse) -> (ok: bool)
    ensures
        ok == (response@ is ObjectData),
{
    matches!(response, ServiceResponse::ObjectData(_))
}

/// Whether a response to a material query shows the expected material.
pub fn material_found(response: &ServiceResponse) -> (ok: bool)
    ensures
        ok == (response@ is MaterialData),
{
    matches!(response, ServiceResponse::MaterialData(_))
}

} // verus!
