//! The root engine object.
//!
//! Every other object is created against a [`Context`].  A context may be
//! shared across threads; sharing is expressed by [`Context::retain`],
//! which bumps the native reference count and hands back an independent
//! wrapper.  Each wrapper releases exactly once; the engine's reference
//! count, not the wrapper, decides when the context actually dies.

use vstd::prelude::*;

use crate::engine::{slots_after_create, slots_after_retain, Engine};
use crate::error::{IplError, SteamAudioError};
use crate::ffi::{IplContextSettings, SIMD_LEVEL_SSE2, STEAMAUDIO_VERSION};
use crate::handle::{finalize_slots_spec, NativeHandle};

verus! {

/// Options of a context creation call; `None` picks the engine default.
#[derive(Debug, Clone, Copy, PartialEq, Eq, Structural)]
pub struct ContextSettings {
    /// ABI version to ask for; `None` asks for the crate's own.
    pub version: Option<u32>,
    /// Highest SIMD level to allow; `None` allows SSE2.
    pub simd_level: Option<i32>,
}

impl Default for ContextSettings {
    /// Engine defaults for everything.
    fn default() -> (r: ContextSettings)
        ensures
            r == (ContextSettings { version: None, simd_level: None }),
    {
        ContextSettings { version: None, simd_level: None }
    }
}

impl ContextSettings {
    /// The marshaled form: defaults filled in, the layer's logging and
    /// allocation callbacks installed, no free callback.
    pub open spec fn to_ipl_spec(self) -> IplContextSettings {
        IplContextSettings {
            version: match self.version {
                Some(v) => v,
                None => STEAMAUDIO_VERSION,
            },
            log_callback: true,
            allocate_callback: true,
            free_callback: false,
            simd_level: match self.simd_level {
                Some(s) => s,
                None => SIMD_LEVEL_SSE2,
            },
        }
    }

    /// Marshals the settings into the ABI value struct.
    pub fn to_ipl(&self) -> (r: IplContextSettings)
        ensures
            r == self.to_ipl_spec(),
    {
        IplContextSettings {
            version: match self.version {
                Some(v) => v,
                None => STEAMAUDIO_VERSION,
            },
            log_callback: true,
            allocate_callback: true,
            free_callback: false,
            simd_level: match self.simd_level {
                Some(s) => s,
                None => SIMD_LEVEL_SSE2,
            },
        }
    }
}

/// The root handle of the engine.
#[derive(Debug)]
pub struct Context {
    handle: NativeHandle,
    settings: IplContextSettings,
}

impl Context {
    /// The owned handle.
    pub closed spec fn handle_spec(self) -> NativeHandle {
        self.handle
    }

    /// The raw handle value.
    pub open spec fn raw_spec(self) -> usize {
        self.handle_spec().raw_spec()
    }

    /// Whether the wrapper still owns a live handle.
    pub open spec fn is_live_spec(self) -> bool {
        self.handle_spec().is_live_spec()
    }

    /// The marshaled settings kept alive alongside the handle.
    pub closed spec fn settings_spec(self) -> IplContextSettings {
        self.settings
    }

    /// Creates the context.  Succeeds exactly when the engine's creation
    /// status is success; on failure the error carries that status and
    /// nothing is allocated, so there is nothing to release.
    pub fn new(engine: &mut Engine, settings: &ContextSettings) -> (r: Result<
        Context,
        SteamAudioError,
    >)
        requires
            old(engine).wf(),
        ensures
            final(engine).wf(),
            final(engine).create_status_spec() == old(engine).create_status_spec(),
            r is Ok <==> old(engine).create_status_spec() == IplError::Success,
            r matches Ok(c) ==> {
                &&& c.is_live_spec()
                &&& final(engine).slots_seq() =~= slots_after_create(old(engine).slots_seq())
                &&& c.raw_spec() == final(engine).slots_seq().len()
                &&& final(engine).live(c.raw_spec())
                &&& final(engine).refs_of(c.raw_spec()) == 1
                &&& final(engine).releases_of(c.raw_spec()) == 0
                &&& c.settings_spec() == settings.to_ipl_spec()
            },
            r matches Err(e) ==> e == SteamAudioError::IPLError(old(engine).create_status_spec())
                && final(engine).slots_seq() == old(engine).slots_seq(),
    {
        let ipl_settings = settings.to_ipl();
        let (status, raw) = engine.create();
        if status == IplError::Success {
            Ok(Context { handle: NativeHandle::from_create(status, raw), settings: ipl_settings })
        } else {
            Err(SteamAudioError::IPLError(status))
        }
    }

    /// Bumps the native reference count and returns a new, independently
    /// owned wrapper of the same raw handle.
    pub fn retain(&self, engine: &mut Engine) -> (r: Context)
        requires
            old(engine).wf(),
            self.is_live_spec(),
            old(engine).can_retain(self.raw_spec()),
        ensures
            final(engine).wf(),
            r.is_live_spec(),
            r.raw_spec() == self.raw_spec(),
            r.settings_spec() == self.settings_spec(),
            final(engine).slots_seq() =~= slots_after_retain(
                old(engine).slots_seq(),
                self.raw_spec(),
            ),
            final(engine).refs_of(self.raw_spec()) == old(engine).refs_of(self.raw_spec()) + 1,
            final(engine).releases_of(self.raw_spec()) == old(engine).releases_of(self.raw_spec()),
            final(engine).create_status_spec() == old(engine).create_status_spec(),
    {
        let raw = engine.retain(self.handle.raw());
        Context { handle: NativeHandle::from_retain(raw), settings: self.settings }
    }

    /// Destroys the wrapper: one release call if (and only if) the handle
    /// is live.
    pub fn release(self, engine: &mut Engine)
        requires
            old(engine).wf(),
            self.is_live_spec() ==> old(engine).live(self.raw_spec()),
        ensures
            final(engine).wf(),
            final(engine).slots_seq() == finalize_slots_spec(
                self.handle_spec(),
                old(engine).slots_seq(),
            ),
            self.is_live_spec() ==> final(engine).releases_of(self.raw_spec()) == old(
                engine,
            ).releases_of(self.raw_spec()) + 1,
            !self.is_live_spec() ==> final(engine).slots_seq() == old(engine).slots_seq(),
            final(engine).create_status_spec() == old(engine).create_status_spec(),
    {
        let mut handle = self.handle;
        handle.finalize(engine);
    }

    /// The raw handle, for handing to native calls; callable only while
    /// live.
    pub fn inner_raw(&self) -> (r: usize)
        requires
            self.is_live_spec(),
        ensures
            r == self.raw_spec(),
    {
        self.handle.raw()
    }

    /// Whether the wrapper still owns a live handle.
    pub fn is_live(&self) -> (r: bool)
        ensures
            r == self.is_live_spec(),
    {
        self.handle.is_live()
    }
}


impl crate::SteamAudioObject for Context {
    /// Whether the wrapper still owns a live handle.
    open spec fn object_live_spec(&self) -> bool {
        self.is_live_spec()
    }

    /// The raw handle value.
    open spec fn object_raw_spec(&self) -> usize {
        self.raw_spec()
    }

    /// The raw handle, for handing to native calls.
    fn inner_raw(&self) -> (r: usize) {
        self.handle.raw()
    }
}


impl crate::RefCounted for Context {
    type Settings = ContextSettings;

    /// A live context handle must be backed by a live engine entry.
    open spec fn valid_in(&self, engine: Engine) -> bool {
        self.is_live_spec() ==> engine.live(self.raw_spec())
    }

    /// Creates a context; see [`Context::new`].
    fn create(engine: &mut Engine, settings: &ContextSettings) -> (r: Result<
        Context,
        SteamAudioError,
    >) {
        Context::new(engine, settings)
    }

    /// Releases the context exactly once; see [`Context::release`].
    fn release(self, engine: &mut Engine) {
        Context::release(self, engine)
    }
}

} // verus!
