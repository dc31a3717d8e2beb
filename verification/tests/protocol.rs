use steam_audio::context::{Context, ContextSettings};
use steam_audio::engine::Engine;
use steam_audio::error::IplError;
use steam_audio::ffi::IplTriangle;
use steam_audio::flags::SimulationFlags;
use steam_audio::hrtf::AudioSettings;
use steam_audio::material::Material;
use steam_audio::scalar::{Bands, Scalar, SCALAR_ONE_RAW};
use steam_audio::scene::{Scene, SceneSettings};
use steam_audio::simulation::{SimulationSettings, SimulationSharedInputs, Simulator};
use steam_audio::source::{OcclusionType, SimulationInputs, Source, SourceSettings};
use steam_audio::static_mesh::{StaticMesh, StaticMeshSettings};
use steam_audio::vector::Vector3;

fn test_material() -> Material {
    Material {
        absorption: Bands::splat(Scalar::from_raw(6554)),
        scattering: Scalar::from_raw(3277),
        transmission: Bands::splat(Scalar::from_raw(655)),
    }
}

fn floor_mesh_settings() -> StaticMeshSettings {
    StaticMeshSettings {
        vertices: vec![
            Vector3::new(Scalar::zero(), Scalar::zero(), Scalar::zero()),
            Vector3::new(Scalar::one(), Scalar::zero(), Scalar::zero()),
            Vector3::new(Scalar::zero(), Scalar::zero(), Scalar::one()),
        ],
        triangles: vec![IplTriangle { v0: 0, v1: 1, v2: 2 }],
        materials: vec![test_material()],
        material_indices: vec![0],
    }
}

#[test]
fn static_mesh_settings_validation() {
    let good = floor_mesh_settings();
    assert!(good.is_valid());

    let mut bad_vertex = floor_mesh_settings();
    bad_vertex.triangles[0].v2 = 3;
    assert!(!bad_vertex.is_valid());

    let mut negative_vertex = floor_mesh_settings();
    negative_vertex.triangles[0].v0 = -1;
    assert!(!negative_vertex.is_valid());

    let mut bad_material = floor_mesh_settings();
    bad_material.material_indices[0] = 1;
    assert!(!bad_material.is_valid());

    let mut missing_index = floor_mesh_settings();
    missing_index.material_indices.clear();
    assert!(!missing_index.is_valid());
}

#[test]
fn scene_builds_and_commits() {
    let mut engine = Engine::new();
    let context = Context::new(&mut engine, &ContextSettings::default()).expect("context");
    let mut scene = Scene::new(&mut engine, &context, &SceneSettings::default()).expect("scene");
    assert!(!scene.is_committed());

    let mesh = StaticMesh::new(&mut engine, &scene, floor_mesh_settings()).expect("mesh");
    scene.add_static_mesh(&mesh);
    assert_eq!(scene.mesh_count(), 1);
    scene.commit();
    assert!(scene.is_committed());

    mesh.release(&mut engine);
    scene.release(&mut engine);
    context.release(&mut engine);
}

#[test]
fn direct_outputs_occlusion_in_unit_interval() {
    // Source with raycast occlusion, one direct pass, then a read of the
    // direct outputs: the occlusion factor lies in [0, 1].
    let mut engine = Engine::new();
    let context = Context::new(&mut engine, &ContextSettings::default()).expect("context");
    let audio = AudioSettings::default();
    let settings = SimulationSettings::from_audio_settings(&audio);
    let mut simulator = Simulator::new(&mut engine, &context, &settings).expect("simulator");

    let mut source =
        Source::new(&mut engine, &simulator, &SourceSettings::default()).expect("source");
    simulator.add_source(&source);

    let inputs = SimulationInputs {
        occlusion_type: OcclusionType::Raycast,
        ..SimulationInputs::default()
    };
    source.set_inputs(SimulationFlags::default(), &inputs);
    simulator.set_shared_inputs(SimulationFlags::default(), &SimulationSharedInputs::default());
    simulator.commit();
    simulator.run_direct();

    let outputs = source.get_outputs(SimulationFlags { direct: true, reflections: false, pathing: false });
    assert!(outputs.direct.occlusion.raw >= 0);
    assert!(outputs.direct.occlusion.raw <= SCALAR_ONE_RAW);
    assert!(outputs.direct.occlusion.in_unit_interval());
    assert!(outputs.direct.flags.distance_attenuation);
    assert!(!outputs.direct.flags.occlusion);

    source.release(&mut engine);
    simulator.release(&mut engine);
    context.release(&mut engine);
}

#[test]
fn set_inputs_is_a_pure_overwrite() {
    let mut engine = Engine::new();
    let context = Context::new(&mut engine, &ContextSettings::default()).expect("context");
    let audio = AudioSettings::default();
    let settings = SimulationSettings::from_audio_settings(&audio);
    let simulator = Simulator::new(&mut engine, &context, &settings).expect("simulator");
    let mut source =
        Source::new(&mut engine, &simulator, &SourceSettings::default()).expect("source");

    let volumetric = SimulationInputs {
        occlusion_type: OcclusionType::Volumetric {
            occlusion_radius: Scalar::one(),
            num_occlusion_samples: 16,
        },
        baked: true,
        ..SimulationInputs::default()
    };
    source.set_inputs(SimulationFlags::all(), &volumetric);
    assert_eq!(source.inputs(), volumetric);
    assert_eq!(source.input_flags(), SimulationFlags::all());

    // The second write replaces the whole value; nothing is merged.
    let raycast = SimulationInputs::default();
    source.set_inputs(SimulationFlags::default(), &raycast);
    assert_eq!(source.inputs(), raycast);
    assert_eq!(source.inputs().occlusion_type, OcclusionType::Raycast);
    assert!(!source.inputs().baked);
}

#[test]
fn simulator_tracks_topology() {
    let mut engine = Engine::new();
    let context = Context::new(&mut engine, &ContextSettings::default()).expect("context");
    let audio = AudioSettings::default();
    let settings = SimulationSettings::from_audio_settings(&audio);
    let mut simulator = Simulator::new(&mut engine, &context, &settings).expect("simulator");
    assert!(!simulator.is_committed());
    assert_eq!(simulator.source_count(), 0);

    let mut scene = Scene::new(&mut engine, &context, &SceneSettings::default()).expect("scene");
    scene.commit();
    simulator.set_scene(&scene);
    assert!(!simulator.is_committed());

    let source = Source::new(&mut engine, &simulator, &SourceSettings::default()).expect("source");
    simulator.add_source(&source);
    assert_eq!(simulator.source_count(), 1);
    assert!(!simulator.is_committed());

    simulator.commit();
    assert!(simulator.is_committed());
    assert!(!simulator.has_run_direct());
    simulator.run_direct();
    assert!(simulator.has_run_direct());
    simulator.run_reflections();
    simulator.run_pathing();
}

#[test]
fn every_wrapper_releases_its_handle_once() {
    let mut engine = Engine::new();
    let context = Context::new(&mut engine, &ContextSettings::default()).expect("context");
    let scene = Scene::new(&mut engine, &context, &SceneSettings::default()).expect("scene");
    let audio = AudioSettings::default();
    let settings = SimulationSettings::from_audio_settings(&audio);
    let simulator = Simulator::new(&mut engine, &context, &settings).expect("simulator");
    let source = Source::new(&mut engine, &simulator, &SourceSettings::default()).expect("source");

    let raws = [
        context.inner_raw(),
        scene.inner_raw(),
        simulator.inner_raw(),
        source.inner_raw(),
    ];
    source.release(&mut engine);
    simulator.release(&mut engine);
    scene.release(&mut engine);
    context.release(&mut engine);
    for raw in raws {
        assert_eq!(engine.release_count(raw), 1);
        assert!(!engine.is_live(raw));
    }
}

#[test]
fn failed_creation_leaves_no_handle_behind() {
    let mut engine = Engine::new();
    let context = Context::new(&mut engine, &ContextSettings::default()).expect("context");
    engine.set_create_status(IplError::OutOfMemory);
    let audio = AudioSettings::default();
    let settings = SimulationSettings::from_audio_settings(&audio);
    assert!(Simulator::new(&mut engine, &context, &settings).is_err());
    assert!(Scene::new(&mut engine, &context, &SceneSettings::default()).is_err());
    assert_eq!(engine.handle_count(), 1);
}
