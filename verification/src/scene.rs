//! The in-memory scene store: an ordered collection of objects and
//! materials with unique names, and the operations the scene-automation
//! capability performs on it.
//!
//! Objects and materials are kept in first-creation order; re-creating a
//! name replaces the record in place. Clearing the scene removes every
//! object but keeps the materials.

use vstd::prelude::*;
use vstd::seq_lib::*;
use crate::protocol::{
    AssignMaterialParams, AssignMaterialParamsView, BlenderApiError, BlenderApiErrorView,
    CreateCubeParams, CreateCubeParamsView, CreateMaterialParams, CreateMaterialParamsView,
    CreateSphereParams, CreateSphereParamsView, GetMaterialParams, GetObjectParams, MaterialData,
    MaterialDataView, ObjectData, ObjectDataView, Vec3, spec_vec3_zero,
};

verus! {

/// Sphere subdivision levels above this bound are rejected, so that the
/// derived vertex and face counts always fit the platform word.
pub const MAX_SPHERE_SUBDIVISIONS: u32 = 32767;

/// The mathematical model of the scene store.
#[verifier::ext_equal]
pub struct SceneView {
    pub objects: Seq<ObjectDataView>,
    pub materials: Seq<MaterialDataView>,
}

impl DeepView for ObjectData {
    type V = ObjectDataView;

    open spec fn deep_view(&self) -> ObjectDataView {
        self.view()
    }
}

impl DeepView for MaterialData {
    type V = MaterialDataView;

    open spec fn deep_view(&self) -> MaterialDataView {
        self.view()
    }
}

pub open spec fn object_names(objects: Seq<ObjectDataView>) -> Seq<Seq<char>> {
    objects.map_values(|o: ObjectDataView| o.name)
}

pub open spec fn material_names(materials: Seq<MaterialDataView>) -> Seq<Seq<char>> {
    materials.map_values(|m: MaterialDataView| m.name)
}

/// Well-formedness of the scene: object and material names are unique.
pub open spec fn scene_wf(s: SceneView) -> bool {
    &&& object_names(s.objects).no_duplicates()
    &&& material_names(s.materials).no_duplicates()
}

pub open spec fn spec_empty_scene() -> SceneView {
    SceneView { objects: Seq::empty(), materials: Seq::empty() }
}

pub open spec fn spec_find_object(objects: Seq<ObjectDataView>, name: Seq<char>) -> Option<int> {
    object_names(objects).index_of_first(name)
}

pub open spec fn spec_find_material(materials: Seq<MaterialDataView>, name: Seq<char>) -> Option<
    int,
> {
    material_names(materials).index_of_first(name)
}

/// The object record a create-cube request produces: a unit mesh cube at
/// the requested location, scaled uniformly by the requested size.
pub open spec fn spec_cube_object(p: CreateCubeParamsView) -> ObjectDataView {
    ObjectDataView {
        name: p.name,
        object_type: "MESH"@,
        location: p.location,
        rotation: spec_vec3_zero(),
        scale: Vec3 { x: p.size, y: p.size, z: p.size },
        materials: Seq::empty(),
        vertex_count: Some(8),
        face_count: Some(6),
    }
}

/// Vertex and face count of a generated sphere at a subdivision level.
pub open spec fn spec_sphere_count(subdivisions: u32) -> usize {
    (subdivisions * subdivisions * 4) as usize
}

pub open spec fn spec_sphere_object(p: CreateSphereParamsView) -> ObjectDataView {
    ObjectDataView {
        name: p.name,
        object_type: "MESH"@,
        location: p.location,
        rotation: spec_vec3_zero(),
        scale: Vec3 { x: p.radius, y: p.radius, z: p.radius },
        materials: Seq::empty(),
        vertex_count: Some(spec_sphere_count(p.subdivisions)),
        face_count: Some(spec_sphere_count(p.subdivisions)),
    }
}

pub open spec fn spec_material_record(p: CreateMaterialParamsView) -> MaterialDataView {
    MaterialDataView {
        name: p.name,
        use_nodes: true,
        base_color: p.base_color,
        metallic: p.metallic,
        roughness: p.roughness,
        node_count: 1,
    }
}

/// Inserting an object: a record with the same name is replaced in place,
/// otherwise the record is appended.
pub open spec fn spec_upsert_object(s: SceneView, o: ObjectDataView) -> SceneView {
    match spec_find_object(s.objects, o.name) {
        Some(i) => SceneView { objects: s.objects.update(i, o), materials: s.materials },
        None => SceneView { objects: s.objects.push(o), materials: s.materials },
    }
}

pub open spec fn spec_upsert_material(s: SceneView, m: MaterialDataView) -> SceneView {
    match spec_find_material(s.materials, m.name) {
        Some(i) => SceneView { objects: s.objects, materials: s.materials.update(i, m) },
        None => SceneView { objects: s.objects, materials: s.materials.push(m) },
    }
}

pub open spec fn spec_create_cube(s: SceneView, p: CreateCubeParamsView) -> SceneView {
    spec_upsert_object(s, spec_cube_object(p))
}

/// Create-sphere rejects oversized subdivision levels as invalid
/// parameters and otherwise inserts the generated record.
pub open spec fn spec_create_sphere(s: SceneView, p: CreateSphereParamsView) -> (SceneView, Result<
    (),
    BlenderApiErrorView,
>) {
    if p.subdivisions > MAX_SPHERE_SUBDIVISIONS {
        (
            s,
            Err(
                BlenderApiErrorView::InvalidParameters {
                    message: "sphere subdivisions exceed the supported maximum"@,
                },
            ),
        )
    } else {
        (spec_upsert_object(s, spec_sphere_object(p)), Ok(()))
    }
}

pub open spec fn spec_create_material(s: SceneView, p: CreateMaterialParamsView) -> SceneView {
    spec_upsert_material(s, spec_material_record(p))
}

/// Assigning a material: fails if the material was never created, then if
/// the object does not exist; otherwise the material name is added to the
/// object's list unless already present.
pub open spec fn spec_assign_material(s: SceneView, p: AssignMaterialParamsView) -> (SceneView, Result<
    (),
    BlenderApiErrorView,
>) {
    if spec_find_material(s.materials, p.material_name) is None {
        (s, Err(BlenderApiErrorView::MaterialNotFound { name: p.material_name }))
    } else {
        match spec_find_object(s.objects, p.object_name) {
            Some(i) => {
                let o = s.objects[i];
                let o2 = if o.materials.contains(p.material_name) {
                    o
                } else {
                    ObjectDataView { materials: o.materials.push(p.material_name), ..o }
                };
                (SceneView { objects: s.objects.update(i, o2), materials: s.materials }, Ok(()))
            },
            None => (s, Err(BlenderApiErrorView::ObjectNotFound { name: p.object_name })),
        }
    }
}

pub open spec fn spec_get_object(s: SceneView, name: Seq<char>) -> Result<
    ObjectDataView,
    BlenderApiErrorView,
> {
    match spec_find_object(s.objects, name) {
        Some(i) => Ok(s.objects[i]),
        None => Err(BlenderApiErrorView::ObjectNotFound { name }),
    }
}

pub open spec fn spec_get_material(s: SceneView, name: Seq<char>) -> Result<
    MaterialDataView,
    BlenderApiErrorView,
> {
    match spec_find_material(s.materials, name) {
        Some(i) => Ok(s.materials[i]),
        None => Err(BlenderApiErrorView::MaterialNotFound { name }),
    }
}

pub open spec fn spec_list_objects(s: SceneView) -> Seq<Seq<char>> {
    object_names(s.objects)
}

pub open spec fn spec_list_materials(s: SceneView) -> Seq<Seq<char>> {
    material_names(s.materials)
}

/// Names of the mesh objects, in stored order.
pub open spec fn spec_mesh_names(objects: Seq<ObjectDataView>) -> Seq<Seq<char>>
    decreases objects.len(),
{
    if objects.len() == 0 {
        Seq::empty()
    } else {
        let front = spec_mesh_names(objects.drop_last());
        if objects.last().object_type == "MESH"@ {
            front.push(objects.last().name)
        } else {
            front
        }
    }
}

pub open spec fn spec_list_meshes(s: SceneView) -> Seq<Seq<char>> {
    spec_mesh_names(s.objects)
}

/// Clearing the scene removes every object; materials persist.
pub open spec fn spec_clear_scene(s: SceneView) -> SceneView {
    SceneView { objects: Seq::empty(), materials: s.materials }
}

// ---------------------------------------------------------------------------
// Helper lemmas
// ---------------------------------------------------------------------------

/// Replacing the name at its own first occurrence leaves the name sequence
/// unchanged.
pub(crate) proof fn lemma_update_same_name(names: Seq<Seq<char>>, name: Seq<char>, i: int)
    requires
        0 <= i < names.len(),
        names[i] == name,
    ensures
        names.update(i, name) =~= names,
{
}

/// Appending a fresh name keeps the name sequence duplicate-free.
pub(crate) proof fn lemma_push_new_name(names: Seq<Seq<char>>, name: Seq<char>)
    requires
        names.no_duplicates(),
        !names.contains(name),
    ensures
        names.push(name).no_duplicates(),
{
    let names2 = names.push(name);
    assert forall|i: int, j: int|
        0 <= i < names2.len() && 0 <= j < names2.len() && i != j implies names2[i]
        != names2[j] by {
        if i < names.len() && j < names.len() {
        } else if i < names.len() {
            assert(names[i] == names2[i]);
        } else {
            assert(names[j] == names2[j]);
        }
    }
}

/// Inserting an object keeps the scene well-formed.
pub proof fn lemma_upsert_object_wf(s: SceneView, o: ObjectDataView)
    requires
        scene_wf(s),
    ensures
        scene_wf(spec_upsert_object(s, o)),
{
    let names = object_names(s.objects);
    names.index_of_first_ensures(o.name);
    match spec_find_object(s.objects, o.name) {
        Some(i) => {
            lemma_update_same_name(names, o.name, i);
            assert(object_names(s.objects.update(i, o)) =~= names.update(i, o.name));
        },
        None => {
            lemma_push_new_name(names, o.name);
            assert(object_names(s.objects.push(o)) =~= names.push(o.name));
        },
    }
}

/// Inserting a material keeps the scene well-formed.
pub proof fn lemma_upsert_material_wf(s: SceneView, m: MaterialDataView)
    requires
        scene_wf(s),
    ensures
        scene_wf(spec_upsert_material(s, m)),
{
    let names = material_names(s.materials);
    names.index_of_first_ensures(m.name);
    match spec_find_material(s.materials, m.name) {
        Some(i) => {
            lemma_update_same_name(names, m.name, i);
            assert(material_names(s.materials.update(i, m)) =~= names.update(i, m.name));
        },
        None => {
            lemma_push_new_name(names, m.name);
            assert(material_names(s.materials.push(m)) =~= names.push(m.name));
        },
    }
}

/// Assigning a material keeps the scene well-formed.
pub proof fn lemma_assign_material_wf(s: SceneView, p: AssignMaterialParamsView)
    requires
        scene_wf(s),
    ensures
        scene_wf(spec_assign_material(s, p).0),
{
    let names = object_names(s.objects);
    names.index_of_first_ensures(p.object_name);
    if spec_find_material(s.materials, p.material_name) is None {
    } else {
        match spec_find_object(s.objects, p.object_name) {
            Some(i) => {
                let s2 = spec_assign_material(s, p).0;
                assert(object_names(s2.objects) =~= names.update(i, p.object_name));
                lemma_update_same_name(names, p.object_name, i);
            },
            None => {},
        }
    }
}

/// Clearing the scene keeps it well-formed.
pub proof fn lemma_clear_scene_wf(s: SceneView)
    requires
        scene_wf(s),
    ensures
        scene_wf(spec_clear_scene(s)),
{
    assert(object_names(spec_clear_scene(s).objects) =~= Seq::<Seq<char>>::empty());
}

// ---------------------------------------------------------------------------
// Executable helpers
// ---------------------------------------------------------------------------

/// First index holding an object of the given name, if any.
fn find_object_index(objects: &Vec<ObjectData>, name: &String) -> (r: Option<usize>)
    ensures
        match r {
            Some(i) => i < objects@.len() && spec_find_object(objects.deep_view(), name@) == Some(
                i as int,
            ),
            None => spec_find_object(objects.deep_view(), name@) is None,
        },
{
    let ghost names = object_names(objects.deep_view());
    let mut i: usize = 0;
    while i < objects.len()
        invariant
            i <= objects.len(),
            names == object_names(objects.deep_view()),
            names.len() == objects@.len(),
            forall|j: int| 0 <= j < i ==> names[j] != name@,
        decreases objects.len() - i,
    {
        if objects[i].name == *name {
            proof {
                assert(names[i as int] == name@);
                names.index_of_first_ensures(name@);
                let k = names.index_of_first(name@)->Some_0;
                assert(!(k < i)) by {
                    if k < i {
                        assert(names[k] != name@);
                    }
                }
                assert(!(k > i)) by {
                    if k > i {
                        assert(names[i as int] != name@);
                    }
                }
            }
            return Some(i);
        }
        i = i + 1;
    }
    proof {
        names.index_of_first_ensures(name@);
        if names.index_of_first(name@) is Some {
            let k = names.index_of_first(name@)->Some_0;
            assert(names[k] != name@);
        }
    }
    None
}

/// First index holding a material of the given name, if any.
fn find_material_index(materials: &Vec<MaterialData>, name: &String) -> (r: Option<usize>)
    ensures
        match r {
            Some(i) => i < materials@.len() && spec_find_material(materials.deep_view(), name@)
                == Some(i as int),
            None => spec_find_material(materials.deep_view(), name@) is None,
        },
{
    let ghost names = material_names(materials.deep_view());
    let mut i: usize = 0;
    while i < materials.len()
        invariant
            i <= materials.len(),
            names == material_names(materials.deep_view()),
            names.len() == materials@.len(),
            forall|j: int| 0 <= j < i ==> names[j] != name@,
        decreases materials.len() - i,
    {
        if materials[i].name == *name {
            proof {
                assert(names[i as int] == name@);
                names.index_of_first_ensures(name@);
                let k = names.index_of_first(name@)->Some_0;
                assert(!(k < i)) by {
                    if k < i {
                        assert(names[k] != name@);
                    }
                }
                assert(!(k > i)) by {
                    if k > i {
                        assert(names[i as int] != name@);
                    }
                }
            }
            return Some(i);
        }
        i = i + 1;
    }
    proof {
        names.index_of_first_ensures(name@);
        if names.index_of_first(name@) is Some {
            let k = names.index_of_first(name@)->Some_0;
            assert(names[k] != name@);
        }
    }
    None
}

/// Whether a vector of strings holds the given name.
fn string_vec_contains(v: &Vec<String>, name: &String) -> (r: bool)
    ensures
        r == v.deep_view().contains(name@),
{
    let mut i: usize = 0;
    while i < v.len()
        invariant
            i <= v.len(),
            forall|j: int| 0 <= j < i ==> v.deep_view()[j] != name@,
        decreases v.len() - i,
    {
        if v[i] == *name {
            assert(v.deep_view()[i as int] == name@);
            return true;
        }
        i = i + 1;
    }
    false
}

// ---------------------------------------------------------------------------
// The scene store
// ---------------------------------------------------------------------------

/// An in-memory scene store with the full scene-automation operation set.
pub struct MockBlenderApi {
    objects: Vec<ObjectData>,
    materials: Vec<MaterialData>,
}

impl View for MockBlenderApi {
    type V = SceneView;

    closed spec fn view(&self) -> SceneView {
        SceneView { objects: self.objects.deep_view(), materials: self.materials.deep_view() }
    }
}

impl MockBlenderApi {
    /// Object and material names stay unique across every operation.
    pub open spec fn wf(&self) -> bool {
        scene_wf(self@)
    }

    pub fn new() -> (r: MockBlenderApi)
        ensures
            r@ == spec_empty_scene(),
            r.wf(),
    {
        let r = MockBlenderApi { objects: Vec::new(), materials: Vec::new() };
        proof {
            assert(r@.objects =~= Seq::<ObjectDataView>::empty());
            assert(r@.materials =~= Seq::<MaterialDataView>::empty());
            assert(r@ =~= spec_empty_scene());
        }
        r
    }

    /// Replaces the record of the same name or appends the new record.
    fn upsert_object(&mut self, object: ObjectData)
        requires
            old(self).wf(),
        ensures
            final(self)@ == spec_upsert_object(old(self)@, object@),
            final(self).wf(),
    {
        let ghost names = object_names(self.objects.deep_view());
        match find_object_index(&self.objects, &object.name) {
            Some(i) => {
                proof {
                    names.index_of_first_ensures(object.name@);
                    lemma_update_same_name(names, object.name@, i as int);
                }
                self.objects[i] = object;
                proof {
                    let s2 = spec_upsert_object(old(self)@, object@);
                    assert(self.objects.deep_view() =~= old(self).objects.deep_view().update(
                        i as int,
                        object@,
                    ));
                    assert(self@ =~= s2);
                    assert(object_names(self@.objects) =~= names.update(i as int, object@.name));
                }
            },
            None => {
                proof {
                    names.index_of_first_ensures(object.name@);
                }
                let ghost o_view = object@;
                self.objects.push(object);
                proof {
                    assert(self.objects.deep_view() =~= old(self).objects.deep_view().push(o_view));
                    assert(self@ =~= spec_upsert_object(old(self)@, o_view));
                    assert(object_names(self@.objects) =~= names.push(o_view.name));
                    lemma_push_new_name(names, o_view.name);
                }
            },
        }
    }

    /// Replaces the material of the same name or appends the new one.
    fn upsert_material(&mut self, material: MaterialData)
        requires
            old(self).wf(),
        ensures
            final(self)@ == spec_upsert_material(old(self)@, material@),
            final(self).wf(),
    {
        let ghost names = material_names(self.materials.deep_view());
        match find_material_index(&self.materials, &material.name) {
            Some(i) => {
                proof {
                    names.index_of_first_ensures(material.name@);
                    lemma_update_same_name(names, material.name@, i as int);
                }
                self.materials[i] = material;
                proof {
                    assert(self.materials.deep_view() =~= old(self).materials.deep_view().update(
                        i as int,
                        material@,
                    ));
                    assert(self@ =~= spec_upsert_material(old(self)@, material@));
                    assert(material_names(self@.materials) =~= names.update(
                        i as int,
                        material@.name,
                    ));
                }
            },
            None => {
                proof {
                    names.index_of_first_ensures(material.name@);
                }
                let ghost m_view = material@;
                self.materials.push(material);
                proof {
                    assert(self.materials.deep_view() =~= old(self).materials.deep_view().push(
                        m_view,
                    ));
                    assert(self@ =~= spec_upsert_material(old(self)@, m_view));
                    assert(material_names(self@.materials) =~= names.push(m_view.name));
                    lemma_push_new_name(names, m_view.name);
                }
            },
        }
    }

    /// Creates (or replaces) a cube object.
    pub fn create_cube(&mut self, params: CreateCubeParams) -> (r: Result<(), BlenderApiError>)
        requires
            old(self).wf(),
        ensures
            final(self)@ == spec_create_cube(old(self)@, params@),
            final(self).wf(),
            r is Ok,
    {
        let ghost p_view = params@;
        let object = ObjectData {
            name: params.name,
            object_type: "MESH".to_owned(),
            location: params.location,
            rotation: Vec3::zero(),
            scale: Vec3 { x: params.size, y: params.size, z: params.size },
            materials: Vec::new(),
            vertex_count: Some(8),
            face_count: Some(6),
        };
        proof {
            assert(object@.materials =~= Seq::<Seq<char>>::empty());
            assert(object@ =~= spec_cube_object(p_view));
        }
        self.upsert_object(object);
        Ok(())
    }

    /// Creates (or replaces) a generated sphere object; subdivision levels
    /// above `MAX_SPHERE_SUBDIVISIONS` are rejected as invalid parameters.
    pub fn create_sphere(&mut self, params: CreateSphereParams) -> (r: Result<(), BlenderApiError>)
        requires
            old(self).wf(),
        ensures
            final(self)@ == spec_create_sphere(old(self)@, params@).0,
            unit_result_view(r) == spec_create_sphere(old(self)@, params@).1,
            final(self).wf(),
    {
        let ghost p_view = params@;
        if params.subdivisions > MAX_SPHERE_SUBDIVISIONS {
            return Err(
                BlenderApiError::InvalidParameters {
                    message: "sphere subdivisions exceed the supported maximum".to_owned(),
                },
            );
        }
        let side = params.subdivisions as u64;
        proof {
            assert(side * side <= 32767 * 32767) by (nonlinear_arith)
                requires
                    side <= 32767,
            ;
        }
        let count = (side * side * 4) as usize;
        proof {
            assert(count == spec_sphere_count(p_view.subdivisions));
        }
        let object = ObjectData {
            name: params.name,
            object_type: "MESH".to_owned(),
            location: params.location,
            rotation: Vec3::zero(),
            scale: Vec3 { x: params.radius, y: params.radius, z: params.radius },
            materials: Vec::new(),
            vertex_count: Some(count),
            face_count: Some(count),
        };
        proof {
            assert(object@.materials =~= Seq::<Seq<char>>::empty());
            assert(object@ =~= spec_sphere_object(p_view));
        }
        self.upsert_object(object);
        Ok(())
    }

    /// Creates (or replaces) a material.
    pub fn create_material(&mut self, params: CreateMaterialParams) -> (r: Result<
        (),
        BlenderApiError,
    >)
        requires
            old(self).wf(),
        ensures
            final(self)@ == spec_create_material(old(self)@, params@),
            final(self).wf(),
            r is Ok,
    {
        let ghost p_view = params@;
        let material = MaterialData {
            name: params.name,
            use_nodes: true,
            base_color: params.base_color,
            metallic: params.metallic,
            roughness: params.roughness,
            node_count: 1,
        };
        proof {
            assert(material@ =~= spec_material_record(p_view));
        }
        self.upsert_material(material);
        Ok(())
    }

    /// Adds a material name to an object's material list. Fails with
    /// material-not-found if the material was never created, then with
    /// object-not-found if the object does not exist.
    pub fn assign_material(&mut self, params: AssignMaterialParams) -> (r: Result<
        (),
        BlenderApiError,
    >)
        requires
            old(self).wf(),
        ensures
            final(self)@ == spec_assign_material(old(self)@, params@).0,
            unit_result_view(r) == spec_assign_material(old(self)@, params@).1,
            final(self).wf(),
    {
        let ghost p_view = params@;
        if find_material_index(&self.materials, &params.material_name).is_none() {
            return Err(BlenderApiError::MaterialNotFound { name: params.material_name });
        }
        match find_object_index(&self.objects, &params.object_name) {
            Some(i) => {
                let ghost names = object_names(self.objects.deep_view());
                let ghost o_view = self.objects.deep_view()[i as int];
                let mut object = self.objects[i].clone();
                if !string_vec_contains(&object.materials, &params.material_name) {
                    object.materials.push(params.material_name);
                    proof {
                        assert(object@ =~= (ObjectDataView {
                            materials: o_view.materials.push(p_view.material_name),
                            ..o_view
                        }));
                    }
                } else {
                    proof {
                        assert(object@ =~= o_view);
                    }
                }
                let ghost o2_view = object@;
                self.objects[i] = object;
                proof {
                    names.index_of_first_ensures(p_view.object_name);
                    assert(self.objects.deep_view() =~= old(self).objects.deep_view().update(
                        i as int,
                        o2_view,
                    ));
                    assert(self@ =~= spec_assign_material(old(self)@, p_view).0);
                    lemma_update_same_name(names, p_view.object_name, i as int);
                    assert(object_names(self@.objects) =~= names.update(
                        i as int,
                        o2_view.name,
                    ));
                }
                Ok(())
            },
            None => Err(BlenderApiError::ObjectNotFound { name: params.object_name }),
        }
    }

    /// Fetches an object's record by name.
    pub fn get_object(&self, params: GetObjectParams) -> (r: Result<ObjectData, BlenderApiError>)
        ensures
            result_view(r) == spec_get_object(self@, params@),
    {
        match find_object_index(&self.objects, &params.name) {
            Some(i) => Ok(self.objects[i].clone()),
            None => Err(BlenderApiError::ObjectNotFound { name: params.name }),
        }
    }

    /// Fetches a material's record by name.
    pub fn get_material(&self, params: GetMaterialParams) -> (r: Result<
        MaterialData,
        BlenderApiError,
    >)
        ensures
            material_result_view(r) == spec_get_material(self@, params@),
    {
        match find_material_index(&self.materials, &params.name) {
            Some(i) => Ok(self.materials[i].clone()),
            None => Err(BlenderApiError::MaterialNotFound { name: params.name }),
        }
    }

    /// Names of all objects, in stored order.
    pub fn list_objects(&self) -> (r: Result<Vec<String>, BlenderApiError>)
        ensures
            r matches Ok(names) && names.deep_view() == spec_list_objects(self@),
    {
        let mut names: Vec<String> = Vec::new();
        let mut i: usize = 0;
        while i < self.objects.len()
            invariant
                i <= self.objects.len(),
                names@.len() == i,
                forall|j: int|
                    0 <= j < i ==> names.deep_view()[j] == object_names(self.objects.deep_view())[j],
            decreases self.objects.len() - i,
        {
            let ghost names0 = names.deep_view();
            names.push(self.objects[i].name.clone());
            proof {
                assert forall|j: int|
                    0 <= j < i + 1 implies names.deep_view()[j] == object_names(
                    self.objects.deep_view(),
                )[j] by {
                    if j < i {
                        assert(names.deep_view()[j] == names0[j]);
                        assert(names0[j] == object_names(self.objects.deep_view())[j]);
                    } else {
                        assert(names.deep_view()[j] == self.objects@[j].name@);
                    }
                }
            }
            i = i + 1;
        }
        proof {
            assert(names.deep_view() =~= spec_list_objects(self@));
        }
        Ok(names)
    }

    /// Names of all materials, in stored order.
    pub fn list_materials(&self) -> (r: Result<Vec<String>, BlenderApiError>)
        ensures
            r matches Ok(names) && names.deep_view() == spec_list_materials(self@),
    {
        let mut names: Vec<String> = Vec::new();
        let mut i: usize = 0;
        while i < self.materials.len()
            invariant
                i <= self.materials.len(),
                names@.len() == i,
                forall|j: int|
                    0 <= j < i ==> names.deep_view()[j] == material_names(
                        self.materials.deep_view(),
                    )[j],
            decreases self.materials.len() - i,
        {
            let ghost names0 = names.deep_view();
            names.push(self.materials[i].name.clone());
            proof {
                assert forall|j: int|
                    0 <= j < i + 1 implies names.deep_view()[j] == material_names(
                    self.materials.deep_view(),
                )[j] by {
                    if j < i {
                        assert(names.deep_view()[j] == names0[j]);
                        assert(names0[j] == material_names(self.materials.deep_view())[j]);
                    } else {
                        assert(names.deep_view()[j] == self.materials@[j].name@);
                    }
                }
            }
            i = i + 1;
        }
        proof {
            assert(names.deep_view() =~= spec_list_materials(self@));
        }
        Ok(names)
    }

    /// Names of the mesh objects, in stored order.
    pub fn list_meshes(&self) -> (r: Result<Vec<String>, BlenderApiError>)
        ensures
            r matches Ok(names) && names.deep_view() == spec_list_meshes(self@),
    {
        let mesh_type = "MESH".to_owned();
        let mut names: Vec<String> = Vec::new();
        let mut i: usize = 0;
        while i < self.objects.len()
            invariant
                i <= self.objects.len(),
                names.deep_view() == spec_mesh_names(self.objects.deep_view().take(i as int)),
                mesh_type@ == "MESH"@,
            decreases self.objects.len() - i,
        {
            let ghost prefix = self.objects.deep_view().take(i as int);
            let ghost next_prefix = self.objects.deep_view().take(i + 1);
            proof {
                assert(next_prefix.drop_last() =~= prefix);
                assert(next_prefix.last() == self.objects.deep_view()[i as int]);
            }
            if self.objects[i].object_type == mesh_type {
                names.push(self.objects[i].name.clone());
                proof {
                    assert(names.deep_view() =~= spec_mesh_names(next_prefix));
                }
            } else {
                proof {
                    assert(names.deep_view() =~= spec_mesh_names(next_prefix));
                }
            }
            i = i + 1;
        }
        proof {
            assert(self.objects.deep_view().take(self.objects@.len() as int) =~= (
            self.objects.deep_view()));
        }
        Ok(names)
    }

    /// Removes every object from the scene; materials persist.
    pub fn clear_scene(&mut self) -> (r: Result<(), BlenderApiError>)
        requires
            old(self).wf(),
        ensures
            final(self)@ == spec_clear_scene(old(self)@),
            final(self).wf(),
            r is Ok,
    {
        self.objects.clear();
        proof {
            assert(self.objects.deep_view() =~= Seq::<ObjectDataView>::empty());
            assert(self@ =~= spec_clear_scene(old(self)@));
            assert(object_names(self@.objects) =~= Seq::<Seq<char>>::empty());
        }
        Ok(())
    }
}

/// View of a unit result carrying a scene API error.
pub open spec fn unit_result_view(r: Result<(), BlenderApiError>) -> Result<
    (),
    BlenderApiErrorView,
> {
    match r {
        Ok(()) => Ok(()),
        Err(e) => Err(e@),
    }
}

/// View of an object lookup result.
pub open spec fn result_view(r: Result<ObjectData, BlenderApiError>) -> Result<
    ObjectDataView,
    BlenderApiErrorView,
> {
    match r {
        Ok(d) => Ok(d@),
        Err(e) => Err(e@),
    }
}

/// View of a material lookup result.
pub open spec fn material_result_view(r: Result<MaterialData, BlenderApiError>) -> Result<
    MaterialDataView,
    BlenderApiErrorView,
> {
    match r {
        Ok(d) => Ok(d@),
        Err(e) => Err(e@),
    }
}

} // verus!
