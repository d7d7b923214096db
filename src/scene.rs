//! The scene's stores, and the one-shot routine that populates them.
use vstd::prelude::*;

use crate::geometry::{
    aimed_at, cross, faces, offset, origin, placed_at, unit_scale, unit_y, Orientation, Transform,
    Vec3, UNIT,
};
use crate::material::CustomMaterial;

verus! {

/// A flat rectangle in the horizontal plane, facing up, centred on its
/// origin; its sides in thousandths of a world unit.
#[derive(Clone, Copy, Debug, PartialEq, Eq, Structural)]
pub struct PlaneMesh {
    pub width: u32,
    pub depth: u32,
}

/// Refers to a mesh in a scene's mesh store, by its position there.
#[derive(Clone, Copy, Debug, PartialEq, Eq, Structural)]
pub struct MeshHandle {
    pub index: usize,
}

/// Refers to a material in a scene's material store, by its position there.
#[derive(Clone, Copy, Debug, PartialEq, Eq, Structural)]
pub struct MaterialHandle {
    pub index: usize,
}

/// A record of the scene, made of the parts attached to it.
#[derive(Clone, Copy, Debug, PartialEq, Eq, Structural)]
pub enum Entity {
    /// A mesh drawn with a material, placed by a transform.
    Mesh { mesh: MeshHandle, material: MaterialHandle, transform: Transform },
    /// A 3D camera, placed by a transform.
    Camera { transform: Transform },
}

/// The three stores of a scene: meshes, materials, and the entities that
/// refer to them.
pub struct Scene {
    meshes: Vec<PlaneMesh>,
    materials: Vec<CustomMaterial>,
    entities: Vec<Entity>,
}

/// What a scene holds, in order of insertion.
pub struct SceneView {
    pub meshes: Seq<PlaneMesh>,
    pub materials: Seq<CustomMaterial>,
    pub entities: Seq<Entity>,
}

impl SceneView {
    /// Every handle held by an entity refers to an item of its store.
    pub open spec fn wf(self) -> bool {
        forall|i: int|
            0 <= i < self.entities.len() ==> #[trigger] self.handles_valid(self.entities[i])
    }

    pub open spec fn handles_valid(self, e: Entity) -> bool {
        match e {
            Entity::Mesh { mesh, material, .. } => {
                &&& mesh.index < self.meshes.len()
                &&& material.index < self.materials.len()
            },
            Entity::Camera { .. } => true,
        }
    }

    /// A scene that holds nothing.
    pub open spec fn is_empty(self) -> bool {
        &&& self.meshes.len() == 0
        &&& self.materials.len() == 0
        &&& self.entities.len() == 0
    }
}

impl View for Scene {
    type V = SceneView;

    closed spec fn view(&self) -> SceneView {
        SceneView { meshes: self.meshes@, materials: self.materials@, entities: self.entities@ }
    }
}

/// How many entities of `es` draw a mesh.
pub open spec fn mesh_entity_count(es: Seq<Entity>) -> nat
    decreases es.len(),
{
    if es.len() == 0 {
        0
    } else {
        mesh_entity_count(es.drop_last()) + if es.last() is Mesh {
            1nat
        } else {
            0nat
        }
    }
}

/// How many entities of `es` are cameras.
pub open spec fn camera_count(es: Seq<Entity>) -> nat
    decreases es.len(),
{
    if es.len() == 0 {
        0
    } else {
        camera_count(es.drop_last()) + if es.last() is Camera {
            1nat
        } else {
            0nat
        }
    }
}

/// The ground plane, ten world units on each side.
pub open spec fn ground_plane() -> PlaneMesh {
    PlaneMesh { width: 10000, depth: 10000 }
}

/// Where the plane stands: half a unit above the origin.
pub open spec fn plane_transform() -> Transform {
    placed_at(Vec3 { x: 0, y: 500, z: 0 })
}

/// Where the camera stands, turned towards the origin with up along the
/// vertical axis.
pub open spec fn camera_transform() -> Transform {
    aimed_at(
        placed_at(Vec3 { x: -2000i32, y: 2500, z: 5000 }),
        origin(),
        unit_y(),
    )
}

/// The scene after [`setup`] ran on `s`: one plane and one material added to
/// their stores, then an entity that draws that plane with that material,
/// then a camera.
pub open spec fn setup_effect(s: SceneView) -> SceneView {
    SceneView {
        meshes: s.meshes.push(ground_plane()),
        materials: s.materials.push(CustomMaterial {  }),
        entities: s.entities.push(
            Entity::Mesh {
                mesh: MeshHandle { index: s.meshes.len() as usize },
                material: MaterialHandle { index: s.materials.len() as usize },
                transform: plane_transform(),
            },
        ).push(Entity::Camera { transform: camera_transform() }),
    }
}

impl Scene {
    /// A scene with empty stores.
    pub fn new() -> (r: Scene)
        ensures
            r@.is_empty(),
            r@.wf(),
    {
        Scene { meshes: Vec::new(), materials: Vec::new(), entities: Vec::new() }
    }

    /// Puts `mesh` into the mesh store and returns a handle to it.
    pub fn add_mesh(&mut self, mesh: PlaneMesh) -> (r: MeshHandle)
        ensures
            r.index == old(self)@.meshes.len(),
            final(self)@.meshes == old(self)@.meshes.push(mesh),
            final(self)@.materials == old(self)@.materials,
            final(self)@.entities == old(self)@.entities,
            old(self)@.wf() ==> final(self)@.wf(),
    {
        let r = MeshHandle { index: self.meshes.len() };
        self.meshes.push(mesh);
        proof {
            let (o, f) = (old(self)@, self@);
            assert forall|i: int| 0 <= i < f.entities.len() && o.wf() implies #[trigger] f.handles_valid(
                f.entities[i],
            ) by {
                assert(o.handles_valid(o.entities[i]));
            }
        }
        r
    }

    /// Puts `material` into the material store and returns a handle to it.
    pub fn add_material(&mut self, material: CustomMaterial) -> (r: MaterialHandle)
        ensures
            r.index == old(self)@.materials.len(),
            final(self)@.materials == old(self)@.materials.push(material),
            final(self)@.meshes == old(self)@.meshes,
            final(self)@.entities == old(self)@.entities,
            old(self)@.wf() ==> final(self)@.wf(),
    {
        let r = MaterialHandle { index: self.materials.len() };
        self.materials.push(material);
        proof {
            let (o, f) = (old(self)@, self@);
            assert forall|i: int| 0 <= i < f.entities.len() && o.wf() implies #[trigger] f.handles_valid(
                f.entities[i],
            ) by {
                assert(o.handles_valid(o.entities[i]));
            }
        }
        r
    }

    /// Adds `entity` after the entities already in the scene.
    pub fn spawn(&mut self, entity: Entity)
        requires
            old(self)@.handles_valid(entity),
        ensures
            final(self)@.entities == old(self)@.entities.push(entity),
            final(self)@.meshes == old(self)@.meshes,
            final(self)@.materials == old(self)@.materials,
            old(self)@.wf() ==> final(self)@.wf(),
    {
        self.entities.push(entity);
        proof {
            let (o, f) = (old(self)@, self@);
            assert forall|i: int| 0 <= i < f.entities.len() && o.wf() implies #[trigger] f.handles_valid(
                f.entities[i],
            ) by {
                if i < o.entities.len() {
                    assert(o.handles_valid(o.entities[i]));
                }
            }
        }
    }

    /// The mesh store, in order of insertion.
    pub fn meshes(&self) -> (r: &Vec<PlaneMesh>)
        ensures
            r@ == self@.meshes,
    {
        &self.meshes
    }

    /// The material store, in order of insertion.
    pub fn materials(&self) -> (r: &Vec<CustomMaterial>)
        ensures
            r@ == self@.materials,
    {
        &self.materials
    }

    /// The entities, in order of creation.
    pub fn entities(&self) -> (r: &Vec<Entity>)
        ensures
            r@ == self@.entities,
    {
        &self.entities
    }
}

/// Populates the scene once: a ten by ten plane drawn with a
/// [`CustomMaterial`] half a unit above the origin, and a camera at
/// (-2, 2.5, 5) that looks at the origin with up along the vertical axis.
pub fn setup(scene: &mut Scene)
    requires
        old(scene)@.wf(),
    ensures
        final(scene)@ == setup_effect(old(scene)@),
        final(scene)@.wf(),
{
    let mesh = scene.add_mesh(PlaneMesh { width: 10 * UNIT as u32, depth: 10 * UNIT as u32 });
    let material = scene.add_material(CustomMaterial {  });
    scene.spawn(Entity::Mesh { mesh, material, transform: Transform::from_xyz(0, UNIT / 2, 0) });
    let camera = Transform::from_xyz(-2 * UNIT, 5 * UNIT / 2, 5 * UNIT).looking_at(
        Vec3::zero(),
        Vec3::up(),
    );
    scene.spawn(Entity::Camera { transform: camera });
}

proof fn lemma_counts_push(es: Seq<Entity>, e: Entity)
    ensures
        mesh_entity_count(es.push(e)) == mesh_entity_count(es) + if e is Mesh {
            1nat
        } else {
            0nat
        },
        camera_count(es.push(e)) == camera_count(es) + if e is Camera {
            1nat
        } else {
            0nat
        },
{
    assert(es.push(e).drop_last() =~= es);
}

/// Each run of [`setup`] adds exactly one mesh entity and exactly one camera,
/// so a scene that held nothing holds exactly one of each afterwards.
pub proof fn lemma_setup_spawns_one_mesh_and_one_camera(s: SceneView)
    ensures
        mesh_entity_count(setup_effect(s).entities) == mesh_entity_count(s.entities) + 1,
        camera_count(setup_effect(s).entities) == camera_count(s.entities) + 1,
        s.is_empty() ==> mesh_entity_count(setup_effect(s).entities) == 1,
        s.is_empty() ==> camera_count(setup_effect(s).entities) == 1,
{
    let m = Entity::Mesh {
        mesh: MeshHandle { index: s.meshes.len() as usize },
        material: MaterialHandle { index: s.materials.len() as usize },
        transform: plane_transform(),
    };
    lemma_counts_push(s.entities, m);
    lemma_counts_push(s.entities.push(m), Entity::Camera { transform: camera_transform() });
}

/// Every mesh entity that [`setup`] creates stands at (0, 0.5, 0), neither
/// rotated nor scaled.
pub proof fn lemma_setup_places_plane(s: SceneView)
    ensures
        forall|i: int|
            s.entities.len() <= i < setup_effect(s).entities.len() && (
            #[trigger] setup_effect(s).entities[i]) is Mesh ==> {
                let t = setup_effect(s).entities[i]->Mesh_transform;
                &&& t.translation == Vec3 { x: 0, y: 500, z: 0 }
                &&& t.orientation == Orientation::Identity
                &&& t.scale == unit_scale()
            },
{
}

/// Every camera that [`setup`] creates stands at (-2, 2.5, 5) and faces the
/// origin, with up along the vertical axis.
pub proof fn lemma_setup_aims_camera(s: SceneView)
    ensures
        forall|i: int|
            s.entities.len() <= i < setup_effect(s).entities.len() && (
            #[trigger] setup_effect(s).entities[i]) is Camera ==> {
                let t = setup_effect(s).entities[i]->Camera_transform;
                &&& t.translation == Vec3 { x: -2000i32, y: 2500, z: 5000 }
                &&& faces(t, origin())
                &&& t.orientation matches Orientation::LookingAt { up, .. } && up == unit_y()
            },
{
    let c = camera_transform();
    let d = offset(c.translation, origin());
    assert(d == (2000int, -2500int, -5000int));
    let u = offset(origin(), unit_y());
    assert(u == (0int, 1000int, 0int));
    assert(cross(d, u) == (5000000int, 0int, 2000000int)) by (nonlinear_arith)
        requires
            d == (2000int, -2500int, -5000int),
            u == (0int, 1000int, 0int),
    ;
    assert(faces(c, origin()));
}

/// [`setup`] adds exactly one material, a [`CustomMaterial`], whose fragment
/// shader is the animated shader asset; a scene that held nothing holds that
/// one material afterwards.
pub proof fn lemma_setup_adds_one_material(s: SceneView)
    ensures
        setup_effect(s).materials.len() == s.materials.len() + 1,
        setup_effect(s).materials.last() == (CustomMaterial {  }),
        s.is_empty() ==> setup_effect(s).materials =~= seq![(CustomMaterial {  })],
{
}

/// [`setup`] leaves what the scene held before untouched: a second run keeps
/// every mesh, material and entity of the first in place, and the handles
/// stay valid.
pub proof fn lemma_setup_keeps_existing(s: SceneView)
    ensures
        setup_effect(s).meshes.subrange(0, s.meshes.len() as int) == s.meshes,
        setup_effect(s).materials.subrange(0, s.materials.len() as int) == s.materials,
        setup_effect(s).entities.subrange(0, s.entities.len() as int) == s.entities,
        s.wf() ==> setup_effect(s).wf(),
{
    let a = setup_effect(s);
    assert(a.meshes.subrange(0, s.meshes.len() as int) =~= s.meshes);
    assert(a.materials.subrange(0, s.materials.len() as int) =~= s.materials);
    assert(a.entities.subrange(0, s.entities.len() as int) =~= s.entities);
    if s.wf() {
        assert forall|i: int| 0 <= i < a.entities.len() implies #[trigger] a.handles_valid(
            a.entities[i],
        ) by {
            if i < s.entities.len() {
                assert(s.handles_valid(s.entities[i]));
            }
        }
    }
}

} // verus!
