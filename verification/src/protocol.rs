//! The message protocol exchanged across the bridge: request and response
//! variants, the parameter records they carry, and the data records that
//! come back from the scene store.
//!
//! Scene scalars (sizes, radii, colour channels) are carried as integer
//! thousandths, so that every protocol value is a plain value with exact
//! equality; an embedding converts to and from its native floating form at
//! the process boundary.

use vstd::prelude::*;
use vstd::string::StringExecFns;

verus! {

/// A scalar in thousandths: `milli = 2000` stands for two units.
#[derive(Clone, Copy, Debug, PartialEq, Eq, Structural)]
pub struct Fixed {
    pub milli: i64,
}

impl Fixed {
    pub fn from_milli(milli: i64) -> (r: Fixed)
        ensures
            r.milli == milli,
    {
        Fixed { milli }
    }

    pub fn zero() -> (r: Fixed)
        ensures
            r.milli == 0,
    {
        Fixed { milli: 0 }
    }
}

/// A position or scale in scene space.
#[derive(Clone, Copy, Debug, PartialEq, Eq, Structural)]
pub struct Vec3 {
    pub x: Fixed,
    pub y: Fixed,
    pub z: Fixed,
}

impl Vec3 {
    pub fn new(x: Fixed, y: Fixed, z: Fixed) -> (r: Vec3)
        ensures
            r == (Vec3 { x, y, z }),
    {
        Vec3 { x, y, z }
    }

    pub fn zero() -> (r: Vec3)
        ensures
            r == spec_vec3_zero(),
    {
        Vec3 { x: Fixed { milli: 0 }, y: Fixed { milli: 0 }, z: Fixed { milli: 0 } }
    }
}

pub open spec fn spec_vec3_zero() -> Vec3 {
    Vec3 { x: Fixed { milli: 0 }, y: Fixed { milli: 0 }, z: Fixed { milli: 0 } }
}

/// An RGBA colour, each channel in thousandths of full intensity.
#[derive(Clone, Copy, Debug, PartialEq, Eq, Structural)]
pub struct Color {
    pub r: Fixed,
    pub g: Fixed,
    pub b: Fixed,
    pub a: Fixed,
}

impl Color {
    pub fn new(r: Fixed, g: Fixed, b: Fixed, a: Fixed) -> (c: Color)
        ensures
            c == (Color { r, g, b, a }),
    {
        Color { r, g, b, a }
    }

    pub fn red() -> (c: Color)
        ensures
            c == spec_color_red(),
    {
        Color {
            r: Fixed { milli: 800 },
            g: Fixed { milli: 200 },
            b: Fixed { milli: 200 },
            a: Fixed { milli: 1000 },
        }
    }

    pub fn white() -> (c: Color)
        ensures
            c == spec_color_white(),
    {
        Color {
            r: Fixed { milli: 1000 },
            g: Fixed { milli: 1000 },
            b: Fixed { milli: 1000 },
            a: Fixed { milli: 1000 },
        }
    }
}

pub open spec fn spec_color_red() -> Color {
    Color {
        r: Fixed { milli: 800 },
        g: Fixed { milli: 200 },
        b: Fixed { milli: 200 },
        a: Fixed { milli: 1000 },
    }
}

pub open spec fn spec_color_white() -> Color {
    Color {
        r: Fixed { milli: 1000 },
        g: Fixed { milli: 1000 },
        b: Fixed { milli: 1000 },
        a: Fixed { milli: 1000 },
    }
}

// ---------------------------------------------------------------------------
// Operation parameters
// ---------------------------------------------------------------------------

#[derive(Debug)]
pub struct CreateCubeParams {
    pub location: Vec3,
    pub name: String,
    pub size: Fixed,
}

#[verifier::ext_equal]
pub struct CreateCubeParamsView {
    pub location: Vec3,
    pub name: Seq<char>,
    pub size: Fixed,
}

impl View for CreateCubeParams {
    type V = CreateCubeParamsView;

    open spec fn view(&self) -> CreateCubeParamsView {
        CreateCubeParamsView { location: self.location, name: self.name@, size: self.size }
    }
}

impl Clone for CreateCubeParams {
    fn clone(&self) -> (r: Self)
        ensures
            r@ == self@,
    {
        CreateCubeParams { location: self.location, name: self.name.clone(), size: self.size }
    }
}

#[derive(Debug)]
pub struct CreateSphereParams {
    pub location: Vec3,
    pub name: String,
    pub radius: Fixed,
    pub subdivisions: u32,
}

#[verifier::ext_equal]
pub struct CreateSphereParamsView {
    pub location: Vec3,
    pub name: Seq<char>,
    pub radius: Fixed,
    pub subdivisions: u32,
}

impl View for CreateSphereParams {
    type V = CreateSphereParamsView;

    open spec fn view(&self) -> CreateSphereParamsView {
        CreateSphereParamsView {
            location: self.location,
            name: self.name@,
            radius: self.radius,
            subdivisions: self.subdivisions,
        }
    }
}

impl Clone for CreateSphereParams {
    fn clone(&self) -> (r: Self)
        ensures
            r@ == self@,
    {
        CreateSphereParams {
            location: self.location,
            name: self.name.clone(),
            radius: self.radius,
            subdivisions: self.subdivisions,
        }
    }
}

#[derive(Debug)]
pub struct CreateMaterialParams {
    pub name: String,
    pub base_color: Color,
    pub metallic: Fixed,
    pub roughness: Fixed,
}

#[verifier::ext_equal]
pub struct CreateMaterialParamsView {
    pub name: Seq<char>,
    pub base_color: Color,
    pub metallic: Fixed,
    pub roughness: Fixed,
}

impl View for CreateMaterialParams {
    type V = CreateMaterialParamsView;

    open spec fn view(&self) -> CreateMaterialParamsView {
        CreateMaterialParamsView {
            name: self.name@,
            base_color: self.base_color,
            metallic: self.metallic,
            roughness: self.roughness,
        }
    }
}

impl Clone for CreateMaterialParams {
    fn clone(&self) -> (r: Self)
        ensures
            r@ == self@,
    {
        CreateMaterialParams {
            name: self.name.clone(),
            base_color: self.base_color,
            metallic: self.metallic,
            roughness: self.roughness,
        }
    }
}

#[derive(Debug)]
pub struct AssignMaterialParams {
    pub object_name: String,
    pub material_name: String,
}

#[verifier::ext_equal]
pub struct AssignMaterialParamsView {
    pub object_name: Seq<char>,
    pub material_name: Seq<char>,
}

impl View for AssignMaterialParams {
    type V = AssignMaterialParamsView;

    open spec fn view(&self) -> AssignMaterialParamsView {
        AssignMaterialParamsView {
            object_name: self.object_name@,
            material_name: self.material_name@,
        }
    }
}

impl Clone for AssignMaterialParams {
    fn clone(&self) -> (r: Self)
        ensures
            r@ == self@,
    {
        AssignMaterialParams {
            object_name: self.object_name.clone(),
            material_name: self.material_name.clone(),
        }
    }
}

#[derive(Debug)]
pub struct GetObjectParams {
    pub name: String,
}

impl View for GetObjectParams {
    type V = Seq<char>;

    open spec fn view(&self) -> Seq<char> {
        self.name@
    }
}

impl Clone for GetObjectParams {
    fn clone(&self) -> (r: Self)
        ensures
            r@ == self@,
    {
        GetObjectParams { name: self.name.clone() }
    }
}

#[derive(Debug)]
pub struct GetMaterialParams {
    pub name: String,
}

impl View for GetMaterialParams {
    type V = Seq<char>;

    open spec fn view(&self) -> Seq<char> {
        self.name@
    }
}

impl Clone for GetMaterialParams {
    fn clone(&self) -> (r: Self)
        ensures
            r@ == self@,
    {
        GetMaterialParams { name: self.name.clone() }
    }
}

// ---------------------------------------------------------------------------
// Scene data records
// ---------------------------------------------------------------------------

#[derive(Debug)]
pub struct ObjectData {
    pub name: String,
    pub object_type: String,
    pub location: Vec3,
    pub rotation: Vec3,
    pub scale: Vec3,
    pub materials: Vec<String>,
    pub vertex_count: Option<usize>,
    pub face_count: Option<usize>,
}

#[verifier::ext_equal]
pub struct ObjectDataView {
    pub name: Seq<char>,
    pub object_type: Seq<char>,
    pub location: Vec3,
    pub rotation: Vec3,
    pub scale: Vec3,
    pub materials: Seq<Seq<char>>,
    pub vertex_count: Option<usize>,
    pub face_count: Option<usize>,
}

impl View for ObjectData {
    type V = ObjectDataView;

    open spec fn view(&self) -> ObjectDataView {
        ObjectDataView {
            name: self.name@,
            object_type: self.object_type@,
            location: self.location,
            rotation: self.rotation,
            scale: self.scale,
            materials: self.materials.deep_view(),
            vertex_count: self.vertex_count,
            face_count: self.face_count,
        }
    }
}

impl Clone for ObjectData {
    fn clone(&self) -> (r: Self)
        ensures
            r@ == self@,
    {
        ObjectData {
            name: self.name.clone(),
            object_type: self.object_type.clone(),
            location: self.location,
            rotation: self.rotation,
            scale: self.scale,
            materials: clone_string_vec(&self.materials),
            vertex_count: self.vertex_count,
            face_count: self.face_count,
        }
    }
}

/// Clones a vector of strings element by element, keeping its contents.
pub fn clone_string_vec(v: &Vec<String>) -> (r: Vec<String>)
    ensures
        r.deep_view() == v.deep_view(),
{
    let mut r: Vec<String> = Vec::new();
    let mut i: usize = 0;
    while i < v.len()
        invariant
            i <= v.len(),
            r@.len() == i,
            forall|j: int| 0 <= j < i ==> r.deep_view()[j] == v.deep_view()[j],
        decreases v.len() - i,
    {
        r.push(v[i].clone());
        i = i + 1;
    }
    proof {
        assert(r.deep_view() =~= v.deep_view());
    }
    r
}

#[derive(Debug)]
pub struct MaterialData {
    pub name: String,
    pub use_nodes: bool,
    pub base_color: Color,
    pub metallic: Fixed,
    pub roughness: Fixed,
    pub node_count: usize,
}

#[verifier::ext_equal]
pub struct MaterialDataView {
    pub name: Seq<char>,
    pub use_nodes: bool,
    pub base_color: Color,
    pub metallic: Fixed,
    pub roughness: Fixed,
    pub node_count: usize,
}

impl View for MaterialData {
    type V = MaterialDataView;

    open spec fn view(&self) -> MaterialDataView {
        MaterialDataView {
            name: self.name@,
            use_nodes: self.use_nodes,
            base_color: self.base_color,
            metallic: self.metallic,
            roughness: self.roughness,
            node_count: self.node_count,
        }
    }
}

impl Clone for MaterialData {
    fn clone(&self) -> (r: Self)
        ensures
            r@ == self@,
    {
        MaterialData {
            name: self.name.clone(),
            use_nodes: self.use_nodes,
            base_color: self.base_color,
            metallic: self.metallic,
            roughness: self.roughness,
            node_count: self.node_count,
        }
    }
}

#[derive(Debug)]
pub struct MeshData {
    pub name: String,
    pub vertex_count: usize,
    pub edge_count: usize,
    pub face_count: usize,
}

#[verifier::ext_equal]
pub struct MeshDataView {
    pub name: Seq<char>,
    pub vertex_count: usize,
    pub edge_count: usize,
    pub face_count: usize,
}

impl View for MeshData {
    type V = MeshDataView;

    open spec fn view(&self) -> MeshDataView {
        MeshDataView {
            name: self.name@,
            vertex_count: self.vertex_count,
            edge_count: self.edge_count,
            face_count: self.face_count,
        }
    }
}

// ---------------------------------------------------------------------------
// Scene API errors
// ---------------------------------------------------------------------------

#[derive(Debug)]
pub enum BlenderApiError {
    ObjectNotFound { name: String },
    MaterialNotFound { name: String },
    OperationFailed { message: String },
    InvalidParameters { message: String },
}

pub enum BlenderApiErrorView {
    ObjectNotFound { name: Seq<char> },
    MaterialNotFound { name: Seq<char> },
    OperationFailed { message: Seq<char> },
    InvalidParameters { message: Seq<char> },
}

impl View for BlenderApiError {
    type V = BlenderApiErrorView;

    open spec fn view(&self) -> BlenderApiErrorView {
        match self {
            BlenderApiError::ObjectNotFound { name } => BlenderApiErrorView::ObjectNotFound {
                name: name@,
            },
            BlenderApiError::MaterialNotFound { name } => BlenderApiErrorView::MaterialNotFound {
                name: name@,
            },
            BlenderApiError::OperationFailed { message } => BlenderApiErrorView::OperationFailed {
                message: message@,
            },
            BlenderApiError::InvalidParameters { message } => (
                BlenderApiErrorView::InvalidParameters { message: message@ }
            ),
        }
    }
}

/// The message text of a scene API error, as a caller sees it.
pub open spec fn spec_api_error_text(e: BlenderApiErrorView) -> Seq<char> {
    match e {
        BlenderApiErrorView::ObjectNotFound { name } => "Object not found: "@ + name,
        BlenderApiErrorView::MaterialNotFound { name } => "Material not found: "@ + name,
        BlenderApiErrorView::OperationFailed { message } => "Operation failed: "@ + message,
        BlenderApiErrorView::InvalidParameters { message } => "Invalid parameters: "@ + message,
    }
}

impl BlenderApiError {
    /// Renders the error as its descriptive line.
    pub fn message(&self) -> (r: String)
        ensures
            r@ == spec_api_error_text(self@),
    {
        match self {
            BlenderApiError::ObjectNotFound { name } => {
                let mut s = "Object not found: ".to_owned();
                s.append(name.as_str());
                s
            },
            BlenderApiError::MaterialNotFound { name } => {
                let mut s = "Material not found: ".to_owned();
                s.append(name.as_str());
                s
            },
            BlenderApiError::OperationFailed { message } => {
                let mut s = "Operation failed: ".to_owned();
                s.append(message.as_str());
                s
            },
            BlenderApiError::InvalidParameters { message } => {
                let mut s = "Invalid parameters: ".to_owned();
                s.append(message.as_str());
                s
            },
        }
    }
}

// ---------------------------------------------------------------------------
// Requests and responses
// ---------------------------------------------------------------------------

/// A request sent from the caller to the host.
#[derive(Debug)]
pub enum ServiceMessage {
    Ping,
    Stop,
    CreateCube(CreateCubeParams),
    CreateSphere(CreateSphereParams),
    CreateMaterial(CreateMaterialParams),
    AssignMaterial(AssignMaterialParams),
    GetObject(GetObjectParams),
    GetMaterial(GetMaterialParams),
    ListObjects,
    ListMaterials,
    ListMeshes,
    ClearScene,
}

pub enum MessageView {
    Ping,
    Stop,
    CreateCube(CreateCubeParamsView),
    CreateSphere(CreateSphereParamsView),
    CreateMaterial(CreateMaterialParamsView),
    AssignMaterial(AssignMaterialParamsView),
    GetObject(Seq<char>),
    GetMaterial(Seq<char>),
    ListObjects,
    ListMaterials,
    ListMeshes,
    ClearScene,
}

impl View for ServiceMessage {
    type V = MessageView;

    open spec fn view(&self) -> MessageView {
        match self {
            ServiceMessage::Ping => MessageView::Ping,
            ServiceMessage::Stop => MessageView::Stop,
            ServiceMessage::CreateCube(p) => MessageView::CreateCube(p@),
            ServiceMessage::CreateSphere(p) => MessageView::CreateSphere(p@),
            ServiceMessage::CreateMaterial(p) => MessageView::CreateMaterial(p@),
            ServiceMessage::AssignMaterial(p) => MessageView::AssignMaterial(p@),
            ServiceMessage::GetObject(p) => MessageView::GetObject(p@),
            ServiceMessage::GetMaterial(p) => MessageView::GetMaterial(p@),
            ServiceMessage::ListObjects => MessageView::ListObjects,
            ServiceMessage::ListMaterials => MessageView::ListMaterials,
            ServiceMessage::ListMeshes => MessageView::ListMeshes,
            ServiceMessage::ClearScene => MessageView::ClearScene,
        }
    }
}

impl Clone for ServiceMessage {
    fn clone(&self) -> (r: Self)
        ensures
            r@ == self@,
    {
        match self {
            ServiceMessage::Ping => ServiceMessage::Ping,
            ServiceMessage::Stop => ServiceMessage::Stop,
            ServiceMessage::CreateCube(p) => ServiceMessage::CreateCube(p.clone()),
            ServiceMessage::CreateSphere(p) => ServiceMessage::CreateSphere(p.clone()),
            ServiceMessage::CreateMaterial(p) => ServiceMessage::CreateMaterial(p.clone()),
            ServiceMessage::AssignMaterial(p) => ServiceMessage::AssignMaterial(p.clone()),
            ServiceMessage::GetObject(p) => ServiceMessage::GetObject(p.clone()),
            ServiceMessage::GetMaterial(p) => ServiceMessage::GetMaterial(p.clone()),
            ServiceMessage::ListObjects => ServiceMessage::ListObjects,
            ServiceMessage::ListMaterials => ServiceMessage::ListMaterials,
            ServiceMessage::ListMeshes => ServiceMessage::ListMeshes,
            ServiceMessage::ClearScene => ServiceMessage::ClearScene,
        }
    }
}

/// A response sent from the host back to the caller.
#[derive(Debug)]
pub enum ServiceResponse {
    Pong,
    Stopped,
    Created,
    ObjectData(ObjectData),
    MaterialData(MaterialData),
    ObjectList(Vec<String>),
    MaterialList(Vec<String>),
    MeshList(Vec<String>),
    SceneCleared,
    Error(String),
}

pub enum ResponseView {
    Pong,
    Stopped,
    Created,
    ObjectData(ObjectDataView),
    MaterialData(MaterialDataView),
    ObjectList(Seq<Seq<char>>),
    MaterialList(Seq<Seq<char>>),
    MeshList(Seq<Seq<char>>),
    SceneCleared,
    Error(Seq<char>),
}

impl View for ServiceResponse {
    type V = ResponseView;

    open spec fn view(&self) -> ResponseView {
        match self {
            ServiceResponse::Pong => ResponseView::Pong,
            ServiceResponse::Stopped => ResponseView::Stopped,
            ServiceResponse::Created => ResponseView::Created,
            ServiceResponse::ObjectData(d) => ResponseView::ObjectData(d@),
            ServiceResponse::MaterialData(d) => ResponseView::MaterialData(d@),
            ServiceResponse::ObjectList(names) => ResponseView::ObjectList(names.deep_view()),
            ServiceResponse::MaterialList(names) => ResponseView::MaterialList(names.deep_view()),
            ServiceResponse::MeshList(names) => ResponseView::MeshList(names.deep_view()),
            ServiceResponse::SceneCleared => ResponseView::SceneCleared,
            ServiceResponse::Error(msg) => ResponseView::Error(msg@),
        }
    }
}

impl DeepView for ServiceMessage {
    type V = MessageView;

    open spec fn deep_view(&self) -> MessageView {
        self.view()
    }
}

impl DeepView for ServiceResponse {
    type V = ResponseView;

    open spec fn deep_view(&self) -> ResponseView {
        self.view()
    }
}

/// Whether a response is the error variant; routing passes over errors.
pub open spec fn spec_is_error(r: ResponseView) -> bool {
    r is Error
}

impl ServiceResponse {
    /// Whether this response is the error variant.
    pub fn is_error(&self) -> (r: bool)
        ensures
            r == spec_is_error(self@),
    {
        match self {
            ServiceResponse::Error(_) => true,
            _ => false,
        }
    }
}

/// Each request variant maps to exactly one success response variant; a
/// response answers a request when it is of that variant.
pub open spec fn response_matches(m: MessageView, r: ResponseView) -> bool {
    match m {
        MessageView::Ping => r is Pong,
        MessageView::Stop => r is Stopped,
        MessageView::CreateCube(_) => r is Created,
        MessageView::CreateSphere(_) => r is Created,
        MessageView::CreateMaterial(_) => r is Created,
        MessageView::AssignMaterial(_) => r is Created,
        MessageView::GetObject(_) => r is ObjectData,
        MessageView::GetMaterial(_) => r is MaterialData,
        MessageView::ListObjects => r is ObjectList,
        MessageView::ListMaterials => r is MaterialList,
        MessageView::ListMeshes => r is MeshList,
        MessageView::ClearScene => r is SceneCleared,
    }
}

} // verus!
