use steam_audio::ambisonics::{ambisonic_order_channels, SpeakerLayout};
use steam_audio::context::ContextSettings;
use steam_audio::direct::TransmissionType;
use steam_audio::ffi;
use steam_audio::flags::{DirectEffectFlags, DirectSimulationFlags, SimulationFlags};
use steam_audio::hrtf::{AudioSettings, HRTFInterpolation, HRTFSettings};
use steam_audio::material::Material;
use steam_audio::orientation::Orientation;
use steam_audio::scalar::{Bands, Scalar, SCALAR_ONE_RAW};
use steam_audio::simulation::{
    ReflectionEffectType, SceneType, SimulationSettings, SimulationSharedInputs,
};
use steam_audio::materials;
use steam_audio::source::{
    AirAbsorptionModel, DistanceAttenuationModel, OcclusionType, SimulationInputs,
};
use steam_audio::vector::Vector3;

#[test]
fn simulation_flag_bits() {
    assert_eq!(SimulationFlags::default().bits(), 1);
    assert_eq!(SimulationFlags::all().bits(), 7);
    let decoded = SimulationFlags::from_bits(5);
    assert!(decoded.direct);
    assert!(!decoded.reflections);
    assert!(decoded.pathing);
    assert_eq!(SimulationFlags::from_bits(SimulationFlags::all().bits()), SimulationFlags::all());
}

#[test]
fn direct_flag_bits() {
    assert_eq!(DirectSimulationFlags::default().bits(), 1);
    assert_eq!(DirectSimulationFlags::all().bits(), 31);
    assert_eq!(DirectEffectFlags::default().bits(), 1);
    assert_eq!(DirectEffectFlags::all().bits(), 31);
    let decoded = DirectEffectFlags::from_bits(10);
    assert!(!decoded.distance_attenuation);
    assert!(decoded.air_absorption);
    assert!(!decoded.directivity);
    assert!(decoded.occlusion);
    assert!(!decoded.transmission);
    assert_eq!(DirectEffectFlags::from_bits(DirectEffectFlags::all().bits()), DirectEffectFlags::all());
}

#[test]
fn audio_settings_defaults_and_marshal() {
    let settings = AudioSettings::default();
    assert_eq!(settings.sampling_rate(), 44100);
    assert_eq!(settings.frame_size(), 1024);
    let ipl = settings.to_ipl();
    assert_eq!(ipl.sampling_rate, 44100);
    assert_eq!(ipl.frame_size, 1024);
}

#[test]
fn context_settings_marshal_fills_defaults() {
    let ipl = ContextSettings::default().to_ipl();
    assert_eq!(ipl.version, ffi::STEAMAUDIO_VERSION);
    assert_eq!(ipl.simd_level, ffi::SIMD_LEVEL_SSE2);
    assert!(ipl.log_callback);
    assert!(ipl.allocate_callback);
    assert!(!ipl.free_callback);

    let custom = ContextSettings { version: Some(7), simd_level: Some(ffi::SIMD_LEVEL_AVX) };
    let ipl = custom.to_ipl();
    assert_eq!(ipl.version, 7);
    assert_eq!(ipl.simd_level, ffi::SIMD_LEVEL_AVX);
}

#[test]
fn hrtf_settings_marshal() {
    let ipl = HRTFSettings::default().to_ipl();
    assert_eq!(ipl.type_, ffi::HRTF_TYPE_DEFAULT);
    assert_eq!(ipl.volume.raw, SCALAR_ONE_RAW);
    assert_eq!(ipl.sofa_file_name, "");
    assert_eq!(ipl.norm_type, ffi::HRTF_NORM_TYPE_NONE);

    let sofa = HRTFSettings::SOFA { path: String::from("ears.sofa"), volume: Scalar::from_raw(32768) };
    let ipl = sofa.to_ipl();
    assert_eq!(ipl.type_, ffi::HRTF_TYPE_SOFA);
    assert_eq!(ipl.sofa_file_name, "ears.sofa");
    assert_eq!(ipl.volume.raw, 32768);
}

#[test]
fn hrtf_interpolation_codes() {
    assert_eq!(HRTFInterpolation::NearestNeighbor.code(), ffi::HRTF_INTERPOLATION_NEAREST);
    assert_eq!(HRTFInterpolation::Bilinear.code(), ffi::HRTF_INTERPOLATION_BILINEAR);
}

#[test]
fn simulation_settings_from_audio_settings() {
    let audio = AudioSettings::new(48000, 512);
    let settings = SimulationSettings::from_audio_settings(&audio);
    assert_eq!(settings.flags, SimulationFlags::default());
    assert_eq!(settings.scene_type, SceneType::Default);
    assert_eq!(settings.reflection_type, ReflectionEffectType::Convolution);
    assert_eq!(settings.max_num_rays, 4096);
    assert_eq!(settings.num_diffuse_samples, 32);
    assert_eq!(settings.max_duration.raw, SCALAR_ONE_RAW);
    assert_eq!(settings.max_order, 1);
    assert_eq!(settings.max_num_sources, 256);
    assert_eq!(settings.num_threads, 2);
    assert_eq!(settings.sampling_rate, 48000);
    assert_eq!(settings.frame_size, 512);

    let ipl = settings.to_ipl();
    assert_eq!(ipl.flags, 1);
    assert_eq!(ipl.scene_type, ffi::SCENE_TYPE_DEFAULT);
    assert_eq!(ipl.reflection_type, ffi::REFLECTION_EFFECT_TYPE_CONVOLUTION);
    assert_eq!(ipl.max_num_rays, 4096);
    assert_eq!(ipl.sampling_rate, 48000);
    assert_eq!(ipl.frame_size, 512);
    assert_eq!(ipl.open_cl_device, 0);
}

#[test]
fn scene_and_reflection_codes() {
    assert_eq!(SceneType::Default.code(), 0);
    assert_eq!(SceneType::Embree.code(), 1);
    assert_eq!(SceneType::RadeonRays.code(), 2);
    assert_eq!(SceneType::Custom.code(), 3);
    assert_eq!(ReflectionEffectType::Convolution.code(), 0);
    assert_eq!(ReflectionEffectType::Parametric.code(), 1);
    assert_eq!(ReflectionEffectType::Hybrid.code(), 2);
    assert_eq!(ReflectionEffectType::Tan.code(), 3);
}

#[test]
fn shared_inputs_marshal() {
    let shared = SimulationSharedInputs::default();
    assert_eq!(shared.num_rays, 4096);
    assert_eq!(shared.num_bounces, 16);
    assert_eq!(shared.duration.raw, 2 * SCALAR_ONE_RAW);
    assert_eq!(shared.order, 1);
    let ipl = shared.to_ipl();
    assert_eq!(ipl.num_rays, 4096);
    assert_eq!(ipl.num_bounces, 16);
    assert_eq!(ipl.order, 1);
    assert_eq!(ipl.listener, Orientation::default().to_ipl());
}

#[test]
fn orientation_marshal() {
    let ipl = Orientation::default().to_ipl();
    assert_eq!(ipl.right.x.raw, SCALAR_ONE_RAW);
    assert_eq!(ipl.up.y.raw, SCALAR_ONE_RAW);
    assert_eq!(ipl.ahead.z.raw, -SCALAR_ONE_RAW);
    assert_eq!(ipl.origin.x.raw, 0);
}

#[test]
fn material_marshal_copies_coefficients() {
    let material = Material {
        absorption: Bands {
            low: Scalar::from_raw(100),
            mid: Scalar::from_raw(200),
            high: Scalar::from_raw(300),
        },
        scattering: Scalar::from_raw(400),
        transmission: Bands {
            low: Scalar::from_raw(500),
            mid: Scalar::from_raw(600),
            high: Scalar::from_raw(700),
        },
    };
    let ipl = material.to_ipl();
    assert_eq!(ipl.absorption, material.absorption);
    assert_eq!(ipl.scattering, material.scattering);
    assert_eq!(ipl.transmission, material.transmission);
}

#[test]
fn simulation_inputs_marshal() {
    let inputs = SimulationInputs::default();
    let ipl = inputs.to_ipl();
    assert_eq!(ipl.flags, 1);
    assert_eq!(ipl.direct_flags, 1);
    assert_eq!(ipl.occlusion_type, ffi::OCCLUSION_TYPE_RAYCAST);
    assert_eq!(ipl.occlusion_radius.raw, 0);
    assert_eq!(ipl.num_occlusion_samples, 0);
    assert_eq!(ipl.baked, ffi::BOOL_FALSE);
    assert_eq!(ipl.pathing_probes, 0);
    assert_eq!(
        ipl.distance_attenuation_model.type_,
        ffi::DISTANCE_ATTENUATION_TYPE_DEFAULT
    );
    assert_eq!(ipl.air_absorption_model.type_, ffi::AIR_ABSORPTION_TYPE_DEFAULT);

    let volumetric = SimulationInputs {
        occlusion_type: OcclusionType::Volumetric {
            occlusion_radius: Scalar::from_raw(131072),
            num_occlusion_samples: 64,
        },
        distance_attenuation_model: DistanceAttenuationModel::InverseDistance {
            min_distance: Scalar::from_raw(98304),
        },
        air_absorption_model: AirAbsorptionModel::Exponential {
            coefficients: Bands {
                low: Scalar::from_raw(1),
                mid: Scalar::from_raw(2),
                high: Scalar::from_raw(3),
            },
        },
        baked: true,
        ..SimulationInputs::default()
    };
    let ipl = volumetric.to_ipl();
    assert_eq!(ipl.occlusion_type, ffi::OCCLUSION_TYPE_VOLUMETRIC);
    assert_eq!(ipl.occlusion_radius.raw, 131072);
    assert_eq!(ipl.num_occlusion_samples, 64);
    assert_eq!(
        ipl.distance_attenuation_model.type_,
        ffi::DISTANCE_ATTENUATION_TYPE_INVERSE_DISTANCE
    );
    assert_eq!(ipl.distance_attenuation_model.min_distance.raw, 98304);
    assert_eq!(ipl.air_absorption_model.type_, ffi::AIR_ABSORPTION_TYPE_EXPONENTIAL);
    assert_eq!(ipl.air_absorption_model.coefficients.low.raw, 1);
    assert_eq!(ipl.baked, ffi::BOOL_TRUE);
}

#[test]
fn transmission_type_round_trip() {
    assert_eq!(TransmissionType::FrequencyIndependent.code(), 0);
    assert_eq!(TransmissionType::FrequencyDependent.code(), 1);
    assert_eq!(
        TransmissionType::from_code(TransmissionType::FrequencyDependent.code()),
        TransmissionType::FrequencyDependent
    );
    assert_eq!(
        TransmissionType::from_code(TransmissionType::FrequencyIndependent.code()),
        TransmissionType::FrequencyIndependent
    );
}

#[test]
fn speaker_layout_codes_and_channels() {
    assert_eq!(SpeakerLayout::Mono.channels(), 1);
    assert_eq!(SpeakerLayout::Stereo.channels(), 2);
    assert_eq!(SpeakerLayout::Quadraphonic.channels(), 4);
    assert_eq!(SpeakerLayout::Surround5_1.channels(), 6);
    assert_eq!(SpeakerLayout::Surround7_1.channels(), 8);
    let ipl = SpeakerLayout::Stereo.to_ipl();
    assert_eq!(ipl.type_, ffi::SPEAKER_LAYOUT_TYPE_STEREO);
    assert_eq!(ipl.num_speakers, 0);
}

#[test]
fn ambisonic_order_channel_counts() {
    assert_eq!(ambisonic_order_channels(0), 1);
    assert_eq!(ambisonic_order_channels(1), 4);
    assert_eq!(ambisonic_order_channels(2), 9);
    assert_eq!(ambisonic_order_channels(3), 16);
}

#[test]
fn scalar_constructors() {
    assert_eq!(Scalar::zero().raw, 0);
    assert_eq!(Scalar::one().raw, 65536);
    assert_eq!(Scalar::from_int(2).raw, 131072);
    assert_eq!(Scalar::from_int(-1).raw, -65536);
    assert!(Scalar::one().in_unit_interval());
    assert!(Scalar::zero().in_unit_interval());
    assert!(!Scalar::from_int(2).in_unit_interval());
    assert!(!Scalar::from_raw(-1).in_unit_interval());
}

#[test]
fn vector3_constructors() {
    let v = Vector3::new(Scalar::from_int(1), Scalar::from_int(2), Scalar::from_int(3));
    assert_eq!(v.x, Scalar::from_int(1));
    assert_eq!(v.y, Scalar::from_int(2));
    assert_eq!(v.z, Scalar::from_int(3));

    let s = Vector3::splat(Scalar::from_int(4));
    assert_eq!(s.x, Scalar::from_int(4));
    assert_eq!(s.y, Scalar::from_int(4));
    assert_eq!(s.z, Scalar::from_int(4));

    let z = Vector3::zero();
    assert_eq!(z.x.raw, 0);
    assert_eq!(z.y.raw, 0);
    assert_eq!(z.z.raw, 0);

    let ipl = v.to_ipl();
    assert_eq!(ipl.x, v.x);
    assert_eq!(ipl.y, v.y);
    assert_eq!(ipl.z, v.z);
}

#[test]
fn material_presets_hold_their_coefficients() {
    let generic = materials::generic();
    assert_eq!(generic.absorption.low.raw, 6554);
    assert_eq!(generic.absorption.mid.raw, 13107);
    assert_eq!(generic.absorption.high.raw, 19661);
    assert_eq!(generic.scattering.raw, 3277);
    let metal = materials::metal();
    assert_eq!(metal.transmission.low.raw, 13107);
    let rock = materials::rock();
    assert_eq!(rock.transmission.high.raw, 66);
}
