//! Safe, verified orchestration layer over a handle-based spatial-audio
//! simulation engine.
//!
//! The engine itself (ray tracing, HRTF convolution, ambisonics math) is an
//! external collaborator behind a C-style ABI and is out of scope here; this
//! crate provides the three things that must be correct around it:
//!
//! * the deinterleaved audio buffer abstraction and its frame-windowing
//!   iterator ([`audio_buffer`]),
//! * the lifecycle and ownership discipline for native handles, including
//!   retain/release semantics ([`handle`], [`engine`]),
//! * the marshaling of settings and per-source simulation inputs/outputs into
//!   the flat value structs the ABI consumes ([`ffi`] and the per-type
//!   conversion methods).
//!
//! The observable state of the native engine (its handle table and reference
//! counts) is modeled by [`engine::Engine`], so the ownership discipline is
//! both proved and executable.

use vstd::prelude::*;

pub mod ambisonics;
pub mod audio_buffer;
pub mod binaural;
pub mod context;
pub mod direct;
pub mod engine;
pub mod error;
pub mod ffi;
pub mod flags;
pub mod handle;
pub mod hrtf;
pub mod interleave;
pub mod material;
pub mod materials;
pub mod orientation;
pub mod scalar;
pub mod scene;
pub mod simulation;
pub mod source;
pub mod static_mesh;
pub mod vector;

verus! {

/// Implemented by every wrapper that owns one opaque native handle: a
/// guarded raw-handle accessor, usable only while the handle is live, so
/// a dead or null handle can never reach the native boundary.
pub trait SteamAudioObject {
    /// Whether the wrapper still owns a live native handle.
    spec fn object_live_spec(&self) -> bool;

    /// The raw native handle value.
    spec fn object_raw_spec(&self) -> usize;

    /// The raw handle, for handing to native calls.
    fn inner_raw(&self) -> (r: usize)
        requires
            self.object_live_spec(),
        ensures
            r == self.object_raw_spec(),
    ;
}

/// The lifecycle discipline of a reference-counted engine object:
/// creation against an engine, and exactly one release per wrapper.
pub trait RefCounted: Sized {
    /// What the creation call takes.
    type Settings;

    /// Whether this wrapper's handle, if live, is backed by a live entry
    /// of the given engine's handle table.
    spec fn valid_in(&self, engine: engine::Engine) -> bool;

    /// Creates a wrapper against the engine; an `Ok` result is valid in
    /// the engine it was created against.
    fn create(engine: &mut engine::Engine, settings: &Self::Settings) -> (r: Result<
        Self,
        error::SteamAudioError,
    >)
        requires
            old(engine).wf(),
        ensures
            final(engine).wf(),
            r matches Ok(o) ==> o.valid_in(*final(engine)),
    ;

    /// Destroys the wrapper, releasing its handle at most once.
    fn release(self, engine: &mut engine::Engine)
        requires
            old(engine).wf(),
            self.valid_in(*old(engine)),
        ensures
            final(engine).wf(),
    ;
}

} // verus!
