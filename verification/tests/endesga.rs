use bevy_crt_galore::endesga::{
    CrtEndesgaNode, CrtEndesgaPipeline, ENDESGA_MASK_PASS, ENDESGA_PASS0_SHADER_HANDLE,
    ENDESGA_PASS1_SHADER_HANDLE, ENDESGA_PASS2_SHADER_HANDLE, ENDESGA_SETTINGS_SHADER_HANDLE,
};
use bevy_crt_galore::executor::{Buffer, Draw, FrameResources, NotReady};
use bevy_crt_galore::extract::{extract, Camera, FrameClock, Viewport};
use bevy_crt_galore::graph::{Anchor, Registration, ShaderAsset, Variant};
use bevy_crt_galore::pipeline::{Binding, ColorFormat, PassPipeline};
use bevy_crt_galore::{CrtEndesgaPreset, CrtEndesgaSettings, EndesgaCrtPlugin};

fn product(a: u32, b: u32) -> u32 {
    (f32::from_bits(a) * f32::from_bits(b)).to_bits()
}

fn settings(values: [f32; 8]) -> CrtEndesgaSettings {
    CrtEndesgaSettings {
        aberration_amount: values[0].to_bits(),
        noise_amount: values[1].to_bits(),
        vignette_amount: values[2].to_bits(),
        rounded_amount: values[3].to_bits(),
        pixelate_amount: values[4].to_bits(),
        mask_amount: values[5].to_bits(),
        distortion_amount: values[6].to_bits(),
        glow_amount: values[7].to_bits(),
    }
}

fn strong() -> CrtEndesgaSettings {
    CrtEndesgaSettings::new(CrtEndesgaPreset::Strong)
}

fn mild() -> CrtEndesgaSettings {
    CrtEndesgaSettings::new(CrtEndesgaPreset::Mild)
}

fn ready(pipelines: [bool; 3]) -> FrameResources {
    FrameResources { pipelines: pipelines.to_vec(), settings_binding: true, globals_binding: true }
}

fn close(bits: u32, expected: f32) -> bool {
    (f32::from_bits(bits) - expected).abs() <= expected.abs() * 1.0e-6
}

#[test]
fn endesga_strong_preset() {
    assert_eq!(strong(), settings([0.07, 0.7, 0.7, 0.07, 0.7, 0.7, 0.07, 3.0]));
}

#[test]
fn endesga_mild_preset() {
    assert_eq!(mild(), settings([0.003, 0.05, 0.7, 0.03, 0.01, 0.01, 0.017, 1.9]));
}

#[test]
fn endesga_default_is_strong() {
    assert_eq!(CrtEndesgaSettings::default(), strong());
}

#[test]
fn endesga_strong_at_scale_one() {
    let scaled = strong().with_scale(1.0f32.to_bits(), product);
    assert_eq!(f32::from_bits(scaled.aberration_amount), 0.07);
    assert_eq!(f32::from_bits(scaled.glow_amount), 3.0);
    assert_eq!(scaled, strong());
}

#[test]
fn endesga_strong_at_scale_zero() {
    let scaled = strong().with_scale(0.0f32.to_bits(), product);
    assert_eq!(scaled.aberration_amount, (0.07f32 * 0.01f32).to_bits());
    assert!(close(scaled.aberration_amount, 0.0007));
    assert_eq!(f32::from_bits(scaled.glow_amount), 1.0);
    assert!(close(scaled.noise_amount, 0.007));
    assert!(close(scaled.pixelate_amount, 0.007));
}

#[test]
fn endesga_scaling_multiplies_every_amount() {
    let scaled = strong().scale_settings(2.0f32.to_bits(), product);
    assert_eq!(scaled, settings([0.07 * 2.0, 0.7 * 2.0, 0.7 * 2.0, 0.07 * 2.0, 0.7 * 2.0, 0.7 * 2.0, 0.07 * 2.0, 6.0]));
    let half = mild().scale_settings(0.5f32.to_bits(), product);
    assert_eq!(half, settings([0.003 * 0.5, 0.05 * 0.5, 0.7 * 0.5, 0.03 * 0.5, 0.01 * 0.5, 0.01 * 0.5, 0.017 * 0.5, 1.0]));
}

#[test]
fn endesga_scaling_hands_each_field_to_the_multiplier() {
    let base = CrtEndesgaSettings {
        aberration_amount: 1,
        noise_amount: 2,
        vignette_amount: 3,
        rounded_amount: 4,
        pixelate_amount: 5,
        mask_amount: 6,
        distortion_amount: 7,
        glow_amount: 3.0f32.to_bits(),
    };
    let first = |a: u32, _: u32| a;
    assert_eq!(base.scale_settings(2.0f32.to_bits(), first), base);
    let second = |_: u32, b: u32| b;
    let two = 2.0f32.to_bits();
    let all = base.scale_settings(two, second);
    assert_eq!(
        all,
        CrtEndesgaSettings {
            aberration_amount: two,
            noise_amount: two,
            vignette_amount: two,
            rounded_amount: two,
            pixelate_amount: two,
            mask_amount: two,
            distortion_amount: two,
            glow_amount: two,
        }
    );
}

#[test]
fn endesga_small_scales_are_the_minimum_scale() {
    let at_floor = strong().with_scale(0.01f32.to_bits(), product);
    for scale in [0.0f32, -0.0, -1.0, -100.0, 0.005, 0.009999999, 1.0e-45, f32::NEG_INFINITY] {
        assert_eq!(strong().with_scale(scale.to_bits(), product), at_floor, "{scale:?}");
    }
    for scale in [f32::NAN, f32::INFINITY] {
        assert_eq!(strong().with_scale(scale.to_bits(), product), at_floor, "{scale:?}");
    }
    assert_ne!(strong().with_scale(0.010000001f32.to_bits(), product), at_floor);
}

#[test]
fn endesga_glow_never_falls_below_one() {
    for base in [strong(), mild(), settings([0.0; 8]), settings([-1.0; 8]), settings([f32::NAN; 8])] {
        for scale in [0.0f32, -5.0, 0.01, 0.1, 0.33, 0.5, 1.0, 2.0, 1.0e30, f32::MAX, f32::INFINITY, f32::NAN] {
            let scaled = base.with_scale(scale.to_bits(), product);
            assert!(f32::from_bits(scaled.glow_amount) >= 1.0, "{base:?} {scale:?}");
        }
    }
}

#[test]
fn endesga_glow_above_one_is_kept() {
    let scaled = strong().with_scale(0.5f32.to_bits(), product);
    assert_eq!(f32::from_bits(scaled.glow_amount), 1.5);
    let scaled = mild().with_scale(2.0f32.to_bits(), product);
    assert_eq!(f32::from_bits(scaled.glow_amount), 3.8);
}

#[test]
fn endesga_without_pixelate_zeroes_the_mask_only() {
    for base in [strong(), mild(), strong().with_scale(0.3f32.to_bits(), product), settings([f32::NAN; 8])] {
        let off = base.without_pixelate();
        assert_eq!(off.pixelate_amount, 0);
        assert_eq!(off.mask_amount, 0);
        assert_eq!(off.aberration_amount, base.aberration_amount);
        assert_eq!(off.noise_amount, base.noise_amount);
        assert_eq!(off.vignette_amount, base.vignette_amount);
        assert_eq!(off.rounded_amount, base.rounded_amount);
        assert_eq!(off.distortion_amount, base.distortion_amount);
        assert_eq!(off.glow_amount, base.glow_amount);
    }
}

#[test]
fn endesga_scale_cannot_switch_the_mask_off() {
    let scaled = strong().with_scale(0.0f32.to_bits(), product);
    assert!(f32::from_bits(scaled.pixelate_amount) > 0.0);
    assert!(!scaled.skips_mask_pass());
    assert!(scaled.without_pixelate().skips_mask_pass());
}

#[test]
fn endesga_set_preset_scaled_replaces_everything() {
    let mut live = settings([9.0; 8]);
    live.set_preset_scaled(CrtEndesgaPreset::Mild, 2.0f32.to_bits(), product);
    assert_eq!(live, mild().with_scale(2.0f32.to_bits(), product));
    live.set_preset_scaled(CrtEndesgaPreset::Strong, 0.0f32.to_bits(), product);
    assert_eq!(live, strong().with_scale(0.01f32.to_bits(), product));
}

#[test]
fn endesga_mask_pass_is_skipped_below_the_threshold() {
    let mut s = strong();
    s.pixelate_amount = 0.0005f32.to_bits();
    s.mask_amount = 0.0005f32.to_bits();
    assert!(s.skips_mask_pass());
    s.mask_amount = 0.00099999994f32.to_bits();
    assert!(s.skips_mask_pass());
    s.pixelate_amount = 0.0f32.to_bits();
    s.mask_amount = (-1.0f32).to_bits();
    assert!(s.skips_mask_pass());
}

#[test]
fn endesga_mask_pass_runs_when_either_amount_reaches_the_threshold() {
    let mut s = strong();
    s.pixelate_amount = 0.001f32.to_bits();
    s.mask_amount = 0.0f32.to_bits();
    assert!(!s.skips_mask_pass());
    s.pixelate_amount = 0.0f32.to_bits();
    s.mask_amount = 0.001f32.to_bits();
    assert!(!s.skips_mask_pass());
    s.pixelate_amount = 0.7f32.to_bits();
    s.mask_amount = 0.7f32.to_bits();
    assert!(!s.skips_mask_pass());
    s.pixelate_amount = f32::NAN.to_bits();
    s.mask_amount = 0.5f32.to_bits();
    assert!(!s.skips_mask_pass());
}

#[test]
fn endesga_three_passes_with_the_mask_on() {
    let draws = CrtEndesgaNode.run(&strong(), &ready([true; 3]), Buffer::First).unwrap();
    assert_eq!(
        draws,
        vec![
            Draw { pass: 0, source: Buffer::First, destination: Buffer::Second },
            Draw { pass: 1, source: Buffer::Second, destination: Buffer::First },
            Draw { pass: 2, source: Buffer::First, destination: Buffer::Second },
        ]
    );
}

#[test]
fn endesga_two_passes_with_the_mask_below_the_threshold() {
    let mut s = strong();
    s.pixelate_amount = 0.0005f32.to_bits();
    s.mask_amount = 0.0005f32.to_bits();
    let draws = CrtEndesgaNode.run(&s, &ready([true; 3]), Buffer::First).unwrap();
    assert_eq!(draws.len(), 2);
    assert_eq!(
        draws,
        vec![
            Draw { pass: 0, source: Buffer::First, destination: Buffer::Second },
            Draw { pass: 2, source: Buffer::Second, destination: Buffer::First },
        ]
    );
    assert!(draws.iter().all(|draw| draw.pass != ENDESGA_MASK_PASS));
}

#[test]
fn endesga_skipped_pass_needs_no_pipeline() {
    let off = strong().without_pixelate();
    let draws = CrtEndesgaNode.run(&off, &ready([true, false, true]), Buffer::Second).unwrap();
    assert_eq!(
        draws,
        vec![
            Draw { pass: 0, source: Buffer::Second, destination: Buffer::First },
            Draw { pass: 2, source: Buffer::First, destination: Buffer::Second },
        ]
    );
}

#[test]
fn endesga_missing_pipeline_leaves_the_frame_alone() {
    assert_eq!(CrtEndesgaNode.run(&strong(), &ready([false, false, false]), Buffer::First), Err(NotReady::Pipeline(0)));
    assert_eq!(CrtEndesgaNode.run(&strong(), &ready([true, false, true]), Buffer::First), Err(NotReady::Pipeline(1)));
    assert_eq!(CrtEndesgaNode.run(&strong(), &ready([true, true, false]), Buffer::First), Err(NotReady::Pipeline(2)));
    let short = FrameResources { pipelines: vec![true, true], settings_binding: true, globals_binding: true };
    assert_eq!(CrtEndesgaNode.run(&strong(), &short, Buffer::First), Err(NotReady::Pipeline(2)));
}

#[test]
fn endesga_missing_binding_leaves_the_frame_alone() {
    let mut resources = ready([true; 3]);
    resources.settings_binding = false;
    assert_eq!(CrtEndesgaNode.run(&strong(), &resources, Buffer::First), Err(NotReady::SettingsBinding));
    resources.globals_binding = false;
    assert_eq!(CrtEndesgaNode.run(&strong(), &resources, Buffer::First), Err(NotReady::SettingsBinding));
    resources.settings_binding = true;
    assert_eq!(CrtEndesgaNode.run(&strong(), &resources, Buffer::First), Err(NotReady::GlobalsBinding));
    resources.pipelines[2] = false;
    assert_eq!(CrtEndesgaNode.run(&strong(), &resources, Buffer::First), Err(NotReady::Pipeline(2)));
}

#[test]
fn endesga_frame_reads_the_snapshot_not_the_live_settings() {
    let mut camera = Camera {
        entity: 7,
        viewport: Viewport { width: 1280, height: 720 },
        settings: strong().without_pixelate(),
    };
    let clock = FrameClock { frame: 41, elapsed: 0.68f32.to_bits() };
    let snapshot = extract(&camera, clock);
    let before = camera.settings;

    camera.settings.set_preset_scaled(CrtEndesgaPreset::Mild, 2.0f32.to_bits(), product);
    camera.viewport = Viewport { width: 640, height: 480 };
    assert_ne!(camera.settings, before);

    assert_eq!(*snapshot.settings(), before);
    assert_eq!(snapshot.viewport(), Viewport { width: 1280, height: 720 });
    assert_eq!(snapshot.clock(), clock);
    assert_eq!(snapshot.entity(), 7);
    let frame_n = CrtEndesgaNode.run(snapshot.settings(), &ready([true; 3]), Buffer::First).unwrap();
    assert_eq!(frame_n.iter().map(|draw| draw.pass).collect::<Vec<_>>(), vec![0, 2]);

    let next = extract(&camera, FrameClock { frame: 42, elapsed: 0.7f32.to_bits() });
    let frame_n1 = CrtEndesgaNode.run(next.settings(), &ready([true; 3]), Buffer::First).unwrap();
    assert_eq!(frame_n1.iter().map(|draw| draw.pass).collect::<Vec<_>>(), vec![0, 1, 2]);
}

#[test]
fn endesga_build_with_a_render_app() {
    let steps = EndesgaCrtPlugin.build(true);
    assert_eq!(
        steps,
        vec![
            Registration::LoadShader(ShaderAsset { handle: ENDESGA_SETTINGS_SHADER_HANDLE, path: "src/endesga/settings.wgsl" }),
            Registration::LoadShader(ShaderAsset { handle: ENDESGA_PASS0_SHADER_HANDLE, path: "assets/shaders/endesga/pass0.wgsl" }),
            Registration::LoadShader(ShaderAsset { handle: ENDESGA_PASS1_SHADER_HANDLE, path: "assets/shaders/endesga/pass1.wgsl" }),
            Registration::LoadShader(ShaderAsset { handle: ENDESGA_PASS2_SHADER_HANDLE, path: "assets/shaders/endesga/pass2.wgsl" }),
            Registration::ExtractSettings(Variant::Endesga),
            Registration::UniformSettings(Variant::Endesga),
            Registration::AddNode(Variant::Endesga),
            Registration::AddEdges { after: Anchor::EndMainPass, node: Variant::Endesga, before: Anchor::Bloom },
        ]
    );
}

#[test]
fn endesga_build_without_a_render_app() {
    let steps = EndesgaCrtPlugin.build(false);
    assert_eq!(steps.len(), 6);
    assert_eq!(steps[..], EndesgaCrtPlugin.build(true)[..6]);
    assert!(steps.iter().all(|step| !matches!(step, Registration::AddNode(_) | Registration::AddEdges { .. })));
}

#[test]
fn endesga_shader_handles() {
    assert_eq!(ENDESGA_SETTINGS_SHADER_HANDLE, 0x9a62c467e77c4d8eb486acc975a47304);
    assert_eq!(ENDESGA_PASS0_SHADER_HANDLE, 0xe280e380bdb74d6b85045cba17e4ba0c);
    assert_eq!(ENDESGA_PASS1_SHADER_HANDLE, 0xd509e7b0ae5743db8169573727464586);
    assert_eq!(ENDESGA_PASS2_SHADER_HANDLE, 0xf867645387c7435db10084e000805d0d);
}

#[test]
fn endesga_finish_without_a_render_app_builds_nothing() {
    assert_eq!(EndesgaCrtPlugin.finish(false), None);
}

#[test]
fn endesga_finish_describes_three_pipelines() {
    let plan = EndesgaCrtPlugin.finish(true).unwrap();
    assert_eq!(plan, CrtEndesgaPipeline::plan());
    assert_eq!(plan.layout_label, "crt_galore_bind_group_layout");
    assert_eq!(plan.bind_group_label, "crt_endesga_bind_group");
    assert_eq!(plan.bindings, vec![Binding::ScreenTexture, Binding::ScreenSampler, Binding::Settings, Binding::Globals]);
    assert_eq!(
        plan.passes,
        vec![
            PassPipeline {
                pass_label: "crt_endesga_pass0",
                pipeline_label: "crt_endesga_pass0_pipeline",
                shader: ENDESGA_PASS0_SHADER_HANDLE,
                entry_point: "fragment",
                format: ColorFormat::Rgba16Float,
            },
            PassPipeline {
                pass_label: "crt_endesga_pass1",
                pipeline_label: "crt_endesga_pass1_pipeline",
                shader: ENDESGA_PASS1_SHADER_HANDLE,
                entry_point: "fragment",
                format: ColorFormat::Rgba16Float,
            },
            PassPipeline {
                pass_label: "crt_endesga_pass2",
                pipeline_label: "crt_endesga_pass2_pipeline",
                shader: ENDESGA_PASS2_SHADER_HANDLE,
                entry_point: "fragment",
                format: ColorFormat::Rgba16Float,
            },
        ]
    );
}
