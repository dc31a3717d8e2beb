//! Static triangle geometry with surface materials.
//!
//! A static mesh is built from vertex positions, triangle index triples, a
//! material array and a per-triangle material index array.  The arrays are
//! validated for agreement before anything reaches the engine, and the
//! wrapper keeps its own marshaled copies alive exactly as long as the
//! native mesh handle, because the engine retains only pointers into them.

use vstd::prelude::*;

use crate::engine::{slots_after_create, Engine};
use crate::error::{IplError, SteamAudioError};
use crate::ffi::{IplMaterial, IplStaticMeshSettings, IplTriangle, IplVector3};
use crate::handle::{finalize_slots_spec, NativeHandle};
use crate::material::Material;
use crate::scene::Scene;
use crate::vector::Vector3;

verus! {

/// The geometry of a static mesh, in library terms.
#[derive(Debug, Clone, PartialEq, Eq)]
pub struct StaticMeshSettings {
    /// Vertex positions.
    pub vertices: Vec<Vector3>,
    /// Triangles, as triples of vertex indices.
    pub triangles: Vec<IplTriangle>,
    /// The material palette.
    pub materials: Vec<Material>,
    /// One material index per triangle.
    pub material_indices: Vec<i32>,
}

impl StaticMeshSettings {
    /// Agreement of the arrays: every triangle names existing vertices,
    /// there is exactly one material index per triangle, every material
    /// index names an existing material, and each count fits the ABI's
    /// 32-bit fields.
    pub open spec fn valid_spec(self) -> bool {
        &&& self.vertices@.len() <= i32::MAX
        &&& self.triangles@.len() <= i32::MAX
        &&& self.materials@.len() <= i32::MAX
        &&& self.material_indices@.len() == self.triangles@.len()
        &&& forall|t: int|
            0 <= t < self.triangles@.len() ==> {
                let tri = #[trigger] self.triangles@[t];
                &&& 0 <= tri.v0 < self.vertices@.len()
                &&& 0 <= tri.v1 < self.vertices@.len()
                &&& 0 <= tri.v2 < self.vertices@.len()
            }
        &&& forall|t: int|
            0 <= t < self.material_indices@.len() ==> 0 <= #[trigger] self.material_indices@[t]
                < self.materials@.len()
    }

    /// Checks array agreement, so callers can reject bad geometry before
    /// constructing a mesh.
    pub fn is_valid(&self) -> (r: bool)
        ensures
            r == self.valid_spec(),
    {
        if self.vertices.len() > i32::MAX as usize || self.triangles.len() > i32::MAX as usize
            || self.materials.len() > i32::MAX as usize {
            return false;
        }
        if self.material_indices.len() != self.triangles.len() {
            return false;
        }
        let nv = self.vertices.len();
        let nm = self.materials.len();
        let mut t: usize = 0;
        while t < self.triangles.len()
            invariant
                t <= self.triangles@.len(),
                nv == self.vertices@.len(),
                forall|k: int|
                    0 <= k < t ==> {
                        let tri = #[trigger] self.triangles@[k];
                        &&& 0 <= tri.v0 < nv
                        &&& 0 <= tri.v1 < nv
                        &&& 0 <= tri.v2 < nv
                    },
            decreases self.triangles@.len() - t,
        {
            let tri = self.triangles[t];
            if tri.v0 < 0 || tri.v0 as usize >= nv || tri.v1 < 0 || tri.v1 as usize >= nv
                || tri.v2 < 0 || tri.v2 as usize >= nv {
                return false;
            }
            t += 1;
        }
        let mut m: usize = 0;
        while m < self.material_indices.len()
            invariant
                m <= self.material_indices@.len(),
                nm == self.materials@.len(),
                forall|k: int|
                    0 <= k < m ==> 0 <= #[trigger] self.material_indices@[k] < nm,
            decreases self.material_indices@.len() - m,
        {
            let idx = self.material_indices[m];
            if idx < 0 || idx as usize >= nm {
                return false;
            }
            m += 1;
        }
        true
    }
}

/// The marshaled copies of the mesh arrays, in the exact layout the
/// engine reads, owned by the wrapper for the lifetime of the handle.
#[derive(Debug, Clone, PartialEq, Eq)]
pub struct StoredStaticMeshSettings {
    /// Vertex positions on the ABI.
    pub vertices: Vec<IplVector3>,
    /// Triangles on the ABI.
    pub triangles: Vec<IplTriangle>,
    /// Materials on the ABI.
    pub materials: Vec<IplMaterial>,
    /// One material index per triangle.
    pub material_indices: Vec<i32>,
}

impl StoredStaticMeshSettings {
    /// The creation-call header: the element counts.
    pub fn header(&self) -> (r: IplStaticMeshSettings)
        requires
            self.vertices@.len() <= i32::MAX,
            self.triangles@.len() <= i32::MAX,
            self.materials@.len() <= i32::MAX,
        ensures
            r.num_vertices == self.vertices@.len(),
            r.num_triangles == self.triangles@.len(),
            r.num_materials == self.materials@.len(),
    {
        IplStaticMeshSettings {
            num_vertices: self.vertices.len() as i32,
            num_triangles: self.triangles.len() as i32,
            num_materials: self.materials.len() as i32,
        }
    }
}

/// Marshals mesh geometry element for element into the layout the engine
/// reads.
pub fn store_static_mesh_settings(settings: &StaticMeshSettings) -> (r: StoredStaticMeshSettings)
    ensures
        r.vertices@.len() == settings.vertices@.len(),
        forall|i: int|
            0 <= i < settings.vertices@.len() ==> #[trigger] r.vertices@[i] == (IplVector3 {
                x: settings.vertices@[i].x,
                y: settings.vertices@[i].y,
                z: settings.vertices@[i].z,
            }),
        r.triangles@ == settings.triangles@,
        r.materials@.len() == settings.materials@.len(),
        forall|i: int|
            0 <= i < settings.materials@.len() ==> #[trigger] r.materials@[i]
                == settings.materials@[i].to_ipl_spec(),
        r.material_indices@ == settings.material_indices@,
{
    let mut vertices: Vec<IplVector3> = Vec::new();
    let mut i: usize = 0;
    while i < settings.vertices.len()
        invariant
            i <= settings.vertices@.len(),
            vertices@.len() == i,
            forall|k: int|
                0 <= k < i ==> #[trigger] vertices@[k] == (IplVector3 {
                    x: settings.vertices@[k].x,
                    y: settings.vertices@[k].y,
                    z: settings.vertices@[k].z,
                }),
        decreases settings.vertices@.len() - i,
    {
        vertices.push(settings.vertices[i].to_ipl());
        i += 1;
    }
    let mut triangles: Vec<IplTriangle> = Vec::new();
    let mut t: usize = 0;
    while t < settings.triangles.len()
        invariant
            t <= settings.triangles@.len(),
            triangles@ =~= settings.triangles@.subrange(0, t as int),
        decreases settings.triangles@.len() - t,
    {
        triangles.push(settings.triangles[t]);
        t += 1;
    }
    let mut materials: Vec<IplMaterial> = Vec::new();
    let mut m: usize = 0;
    while m < settings.materials.len()
        invariant
            m <= settings.materials@.len(),
            materials@.len() == m,
            forall|k: int|
                0 <= k < m ==> #[trigger] materials@[k] == settings.materials@[k].to_ipl_spec(),
        decreases settings.materials@.len() - m,
    {
        materials.push(settings.materials[m].to_ipl());
        m += 1;
    }
    let mut material_indices: Vec<i32> = Vec::new();
    let mut x: usize = 0;
    while x < settings.material_indices.len()
        invariant
            x <= settings.material_indices@.len(),
            material_indices@ =~= settings.material_indices@.subrange(0, x as int),
        decreases settings.material_indices@.len() - x,
    {
        material_indices.push(settings.material_indices[x]);
        x += 1;
    }
    proof {
        assert(triangles@ =~= settings.triangles@);
        assert(material_indices@ =~= settings.material_indices@);
    }
    StoredStaticMeshSettings { vertices, triangles, materials, material_indices }
}

/// One block of static geometry, registered with a scene.
#[derive(Debug)]
pub struct StaticMesh {
    handle: NativeHandle,
    settings: StoredStaticMeshSettings,
}

impl StaticMesh {
    /// The owned handle.
    pub closed spec fn handle_spec(self) -> NativeHandle {
        self.handle
    }

    /// The raw handle value.
    pub open spec fn raw_spec(self) -> usize {
        self.handle_spec().raw_spec()
    }

    /// Whether the wrapper still owns a live handle.
    pub open spec fn is_live_spec(self) -> bool {
        self.handle_spec().is_live_spec()
    }

    /// The marshaled arrays kept alive alongside the handle.
    pub closed spec fn settings_spec(self) -> StoredStaticMeshSettings {
        self.settings
    }

    /// Creates a mesh from validated geometry against a live scene.
    /// Succeeds exactly when the engine's creation status is success; the
    /// marshaled arrays are stored in the wrapper so they outlive the
    /// native handle.
    pub fn new(engine: &mut Engine, scene: &Scene, settings: StaticMeshSettings) -> (r: Result<
        StaticMesh,
        SteamAudioError,
    >)
        requires
            old(engine).wf(),
            scene.is_live_spec(),
            old(engine).live(scene.raw_spec()),
            settings.valid_spec(),
        ensures
            final(engine).wf(),
            final(engine).create_status_spec() == old(engine).create_status_spec(),
            r is Ok <==> old(engine).create_status_spec() == IplError::Success,
            r matches Ok(mesh) ==> {
                &&& mesh.is_live_spec()
                &&& final(engine).slots_seq() =~= slots_after_create(old(engine).slots_seq())
                &&& mesh.raw_spec() == final(engine).slots_seq().len()
                &&& final(engine).live(mesh.raw_spec())
                &&& final(engine).refs_of(mesh.raw_spec()) == 1
                &&& mesh.settings_spec().triangles@ == settings.triangles@
                &&& mesh.settings_spec().material_indices@ == settings.material_indices@
                &&& mesh.settings_spec().vertices@.len() == settings.vertices@.len()
                &&& mesh.settings_spec().materials@.len() == settings.materials@.len()
            },
            r matches Err(e) ==> e == SteamAudioError::IPLError(old(engine).create_status_spec())
                && final(engine).slots_seq() == old(engine).slots_seq(),
    {
        let stored = store_static_mesh_settings(&settings);
        let (status, raw) = engine.create();
        if status == IplError::Success {
            Ok(StaticMesh { handle: NativeHandle::from_create(status, raw), settings: stored })
        } else {
            Err(SteamAudioError::IPLError(status))
        }
    }

    /// The raw handle value; the original hands it out for direct native
    /// use, so it is guarded by liveness like every raw accessor.
    pub fn inner(&self) -> (r: usize)
        requires
            self.is_live_spec(),
        ensures
            r == self.raw_spec(),
    {
        self.handle.raw()
    }

    /// Destroys the wrapper: one release call if (and only if) the handle
    /// is live.
    pub fn release(self, engine: &mut Engine)
        requires
            old(engine).wf(),
            self.is_live_spec() ==> old(engine).live(self.raw_spec()),
        ensures
            final(engine).wf(),
            final(engine).slots_seq() == finalize_slots_spec(
                self.handle_spec(),
                old(engine).slots_seq(),
            ),
            self.is_live_spec() ==> final(engine).releases_of(self.raw_spec()) == old(
                engine,
            ).releases_of(self.raw_spec()) + 1,
            !self.is_live_spec() ==> final(engine).slots_seq() == old(engine).slots_seq(),
            final(engine).create_status_spec() == old(engine).create_status_spec(),
    {
        let mut handle = self.handle;
        handle.finalize(engine);
    }

    /// The raw handle, for handing to native calls; callable only while
    /// live.
    pub fn inner_raw(&self) -> (r: usize)
        requires
            self.is_live_spec(),
        ensures
            r == self.raw_spec(),
    {
        self.handle.raw()
    }

    /// Whether the wrapper still owns a live handle.
    pub fn is_live(&self) -> (r: bool)
        ensures
            r == self.is_live_spec(),
    {
        self.handle.is_live()
    }
}


impl crate::SteamAudioObject for StaticMesh {
    /// Whether the wrapper still owns a live handle.
    open spec fn object_live_spec(&self) -> bool {
        self.is_live_spec()
    }

    /// The raw handle value.
    open spec fn object_raw_spec(&self) -> usize {
        self.raw_spec()
    }

    /// The raw handle, for handing to native calls.
    fn inner_raw(&self) -> (r: usize) {
        self.handle.raw()
    }
}

} // verus!
