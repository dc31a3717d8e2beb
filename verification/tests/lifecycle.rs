use steam_audio::context::{Context, ContextSettings};
use steam_audio::engine::Engine;
use steam_audio::error::{IplError, SteamAudioError};
use steam_audio::handle::NativeHandle;

#[test]
fn create_success_allocates_one_reference() {
    let mut engine = Engine::new();
    let settings = ContextSettings::default();
    let context = Context::new(&mut engine, &settings).expect("creation succeeds");
    assert!(context.is_live());
    let raw = context.inner_raw();
    assert!(engine.is_live(raw));
    assert_eq!(engine.refs_count(raw), 1);
    assert_eq!(engine.release_count(raw), 0);
    assert_eq!(engine.handle_count(), 1);
}

#[test]
fn failed_create_never_releases() {
    // A wrapper whose creation call failed performs no release call on
    // destruction: nothing was allocated, nothing is released.
    let mut engine = Engine::new();
    engine.set_create_status(IplError::Failure);
    let settings = ContextSettings::default();
    let result = Context::new(&mut engine, &settings);
    match result {
        Err(SteamAudioError::IPLError(status)) => assert_eq!(status, IplError::Failure),
        Ok(_) => panic!("creation should have failed"),
    }
    assert_eq!(engine.handle_count(), 0);

    // The same holds at the handle level: a handle adopted from a failed
    // creation is not live, and finalizing it touches nothing.
    let mut handle = NativeHandle::from_create(IplError::Failure, 0);
    assert!(!handle.is_live());
    let released = handle.finalize(&mut engine);
    assert!(!released);
    assert_eq!(engine.handle_count(), 0);
}

#[test]
fn retain_then_drop_releases_exactly_twice() {
    // Retaining a handle and dropping both the original and the retained
    // copy performs exactly two release calls: never zero, never more.
    let mut engine = Engine::new();
    let settings = ContextSettings::default();
    let context = Context::new(&mut engine, &settings).expect("creation succeeds");
    let raw = context.inner_raw();

    let retained = context.retain(&mut engine);
    assert_eq!(retained.inner_raw(), raw);
    assert_eq!(engine.refs_count(raw), 2);
    assert_eq!(engine.release_count(raw), 0);

    context.release(&mut engine);
    assert_eq!(engine.release_count(raw), 1);
    assert!(engine.is_live(raw));

    retained.release(&mut engine);
    assert_eq!(engine.release_count(raw), 2);
    assert!(!engine.is_live(raw));
}

#[test]
fn finalize_is_a_no_op_the_second_time() {
    let mut engine = Engine::new();
    let (status, raw) = engine.create();
    assert_eq!(status, IplError::Success);
    let mut handle = NativeHandle::from_create(status, raw);
    assert!(handle.finalize(&mut engine));
    assert!(!handle.finalize(&mut engine));
    assert_eq!(engine.release_count(raw), 1);
}

#[test]
fn out_of_memory_surfaces_with_its_status() {
    let mut engine = Engine::new();
    engine.set_create_status(IplError::OutOfMemory);
    let settings = ContextSettings::default();
    let error = Context::new(&mut engine, &settings).expect_err("creation fails");
    assert_eq!(error.status(), IplError::OutOfMemory);
    assert_eq!(error.description(), "ipl status out of memory");
}

#[test]
fn error_descriptions() {
    assert_eq!(IplError::Success.description(), "ipl status success");
    assert_eq!(IplError::Failure.description(), "ipl status failure");
    assert_eq!(
        IplError::Initialization.description(),
        "ipl status initialization: An error occurred while initializing an external dependency."
    );
    assert_eq!(IplError::Success.code(), 0);
    assert_eq!(IplError::Failure.code(), 1);
    assert_eq!(IplError::OutOfMemory.code(), 2);
    assert_eq!(IplError::Initialization.code(), 3);
}
