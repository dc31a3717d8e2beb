//! Static acoustic geometry.
//!
//! A scene is created against a context, filled with static meshes, and
//! committed once; only then may a simulator use it.  The wrapper tracks
//! the commit state and the meshes added, so the protocol — add, commit,
//! use — is part of its contracts.

use vstd::prelude::*;

use crate::context::Context;
use crate::engine::{slots_after_create, Engine};
use crate::error::{IplError, SteamAudioError};
use crate::ffi::{IplSceneSettings, SCENE_TYPE_DEFAULT};
use crate::handle::{finalize_slots_spec, NativeHandle};
use crate::static_mesh::StaticMesh;

verus! {

/// Which ray tracer backs the scene.  Only the engine's built-in tracer
/// is carried by this layer.
#[derive(Debug, Clone, Copy, PartialEq, Eq, Structural)]
pub enum SceneSettings {
    /// The engine's built-in ray tracer.
    Default,
}

impl Default for SceneSettings {
    /// The built-in ray tracer.
    fn default() -> (r: SceneSettings)
        ensures
            r == SceneSettings::Default,
    {
        SceneSettings::Default
    }
}

impl SceneSettings {
    /// The marshaled form: the built-in tracer, no callbacks, no devices.
    pub open spec fn to_ipl_spec(self) -> IplSceneSettings {
        IplSceneSettings {
            type_: SCENE_TYPE_DEFAULT,
            closest_hit_callback: false,
            any_hit_callback: false,
            batched_closest_hit_callback: false,
            batched_any_hit_callback: false,
            user_data: 0,
            embree_device: 0,
            radeon_rays_device: 0,
        }
    }

    /// Marshals the settings into the ABI value struct.
    pub fn to_ipl(&self) -> (r: IplSceneSettings)
        ensures
            r == self.to_ipl_spec(),
    {
        IplSceneSettings {
            type_: SCENE_TYPE_DEFAULT,
            closest_hit_callback: false,
            any_hit_callback: false,
            batched_closest_hit_callback: false,
            batched_any_hit_callback: false,
            user_data: 0,
            embree_device: 0,
            radeon_rays_device: 0,
        }
    }
}

/// A set of static geometry, committed once before simulation.
#[derive(Debug)]
pub struct Scene {
    handle: NativeHandle,
    settings: IplSceneSettings,
    meshes: Vec<usize>,
    committed: bool,
}

impl Scene {
    /// The owned handle.
    pub closed spec fn handle_spec(self) -> NativeHandle {
        self.handle
    }

    /// The raw handle value.
    pub open spec fn raw_spec(self) -> usize {
        self.handle_spec().raw_spec()
    }

    /// Whether the wrapper still owns a live handle.
    pub open spec fn is_live_spec(self) -> bool {
        self.handle_spec().is_live_spec()
    }

    /// The marshaled settings kept alive alongside the handle.
    pub closed spec fn settings_spec(self) -> IplSceneSettings {
        self.settings
    }

    /// The raw handles of the meshes registered so far, in the order they
    /// were added.
    pub closed spec fn meshes_spec(self) -> Seq<usize> {
        self.meshes@
    }

    /// Whether the geometry has been frozen by [`Scene::commit`].
    pub closed spec fn is_committed_spec(self) -> bool {
        self.committed
    }

    /// Creates an empty, uncommitted scene against a live context.
    /// Succeeds exactly when the engine's creation status is success.
    pub fn new(engine: &mut Engine, context: &Context, settings: &SceneSettings) -> (r: Result<
        Scene,
        SteamAudioError,
    >)
        requires
            old(engine).wf(),
            context.is_live_spec(),
            old(engine).live(context.raw_spec()),
        ensures
            final(engine).wf(),
            final(engine).create_status_spec() == old(engine).create_status_spec(),
            r is Ok <==> old(engine).create_status_spec() == IplError::Success,
            r matches Ok(s) ==> {
                &&& s.is_live_spec()
                &&& !s.is_committed_spec()
                &&& s.meshes_spec() =~= Seq::<usize>::empty()
                &&& final(engine).slots_seq() =~= slots_after_create(old(engine).slots_seq())
                &&& s.raw_spec() == final(engine).slots_seq().len()
                &&& final(engine).live(s.raw_spec())
                &&& final(engine).refs_of(s.raw_spec()) == 1
                &&& s.settings_spec() == settings.to_ipl_spec()
            },
            r matches Err(e) ==> e == SteamAudioError::IPLError(old(engine).create_status_spec())
                && final(engine).slots_seq() == old(engine).slots_seq(),
    {
        let ipl_settings = settings.to_ipl();
        let (status, raw) = engine.create();
        if status == IplError::Success {
            Ok(
                Scene {
                    handle: NativeHandle::from_create(status, raw),
                    settings: ipl_settings,
                    meshes: Vec::new(),
                    committed: false,
                },
            )
        } else {
            Err(SteamAudioError::IPLError(status))
        }
    }

    /// Freezes the geometry so the engine can build its acceleration
    /// structures.  Committing twice is undefined at the native layer, so
    /// a committed scene cannot be committed again.
    pub fn commit(&mut self)
        requires
            !old(self).is_committed_spec(),
        ensures
            final(self).is_committed_spec(),
            final(self).handle_spec() == old(self).handle_spec(),
            final(self).settings_spec() == old(self).settings_spec(),
            final(self).meshes_spec() == old(self).meshes_spec(),
    {
        self.committed = true;
    }

    /// Registers a static mesh with the scene.  Geometry is mutable only
    /// until the commit; the mesh handle must be live and must stay alive
    /// as long as the scene uses it.
    pub fn add_static_mesh(&mut self, static_mesh: &StaticMesh)
        requires
            !old(self).is_committed_spec(),
            static_mesh.is_live_spec(),
        ensures
            !final(self).is_committed_spec(),
            final(self).handle_spec() == old(self).handle_spec(),
            final(self).settings_spec() == old(self).settings_spec(),
            final(self).meshes_spec() =~= old(self).meshes_spec().push(static_mesh.raw_spec()),
    {
        self.meshes.push(static_mesh.inner_raw());
    }

    /// How many meshes have been registered.
    pub fn mesh_count(&self) -> (r: usize)
        ensures
            r == self.meshes_spec().len(),
    {
        self.meshes.len()
    }

    /// Whether the geometry has been frozen.
    pub fn is_committed(&self) -> (r: bool)
        ensures
            r == self.is_committed_spec(),
    {
        self.committed
    }

    /// Destroys the wrapper: one release call if (and only if) the handle
    /// is live.
    pub fn release(self, engine: &mut Engine)
        requires
            old(engine).wf(),
            self.is_live_spec() ==> old(engine).live(self.raw_spec()),
        ensures
            final(engine).wf(),
            final(engine).slots_seq() == finalize_slots_spec(
                self.handle_spec(),
                old(engine).slots_seq(),
            ),
            self.is_live_spec() ==> final(engine).releases_of(self.raw_spec()) == old(
                engine,
            ).releases_of(self.raw_spec()) + 1,
            !self.is_live_spec() ==> final(engine).slots_seq() == old(engine).slots_seq(),
            final(engine).create_status_spec() == old(engine).create_status_spec(),
    {
        let mut handle = self.handle;
        handle.finalize(engine);
    }

    /// The raw handle, for handing to native calls; callable only while
    /// live.
    pub fn inner_raw(&self) -> (r: usize)
        requires
            self.is_live_spec(),
        ensures
            r == self.raw_spec(),
    {
        self.handle.raw()
    }

    /// Whether the wrapper still owns a live handle.
    pub fn is_live(&self) -> (r: bool)
        ensures
            r == self.is_live_spec(),
    {
        self.handle.is_live()
    }
}


impl crate::SteamAudioObject for Scene {
    /// Whether the wrapper still owns a live handle.
    open spec fn object_live_spec(&self) -> bool {
        self.is_live_spec()
    }

    /// The raw handle value.
    open spec fn object_raw_spec(&self) -> usize {
        self.raw_spec()
    }

    /// The raw handle, for handing to native calls.
    fn inner_raw(&self) -> (r: usize) {
        self.handle.raw()
    }
}

} // verus!
