use ebola::device::{
    DeviceCall, GL_CLAMP_TO_EDGE, GL_FRAGMENT_SHADER, GL_LINEAR, GL_TEXTURE0, GL_TEXTURE_2D,
    GL_TEXTURE_MAG_FILTER, GL_TEXTURE_MIN_FILTER, GL_TEXTURE_WRAP_S, GL_TEXTURE_WRAP_T,
    GL_VERTEX_SHADER,
};
use ebola::error::RenderError;
use ebola::renderer::{ShaderCode, ShaderProgram, ShaderStage};
use ebola::resources::GetFullDataPath;
use ebola::shader::{LoadShaderStage, ShaderLoadAction, ShaderLoadEvent, ShaderLoadState};
use ebola::texture::{DecodedImage, LoadTexture, SamplerUnit, Texture, UploadTexture};
use ebola::vehicle::{ConfigLine, ParseConfigLine, TurnSignalStatus, VehicleData};

/// A 2x1 24-bit BMP: a red pixel, then (30, 200, 10).
fn two_pixel_bmp() -> Vec<u8> {
    let mut b = Vec::new();
    b.extend_from_slice(b"BM");
    b.extend_from_slice(&62u32.to_le_bytes());
    b.extend_from_slice(&0u32.to_le_bytes());
    b.extend_from_slice(&54u32.to_le_bytes());
    b.extend_from_slice(&40u32.to_le_bytes());
    b.extend_from_slice(&2i32.to_le_bytes());
    b.extend_from_slice(&1i32.to_le_bytes());
    b.extend_from_slice(&1u16.to_le_bytes());
    b.extend_from_slice(&24u16.to_le_bytes());
    b.extend_from_slice(&0u32.to_le_bytes());
    b.extend_from_slice(&8u32.to_le_bytes());
    b.extend_from_slice(&2835u32.to_le_bytes());
    b.extend_from_slice(&2835u32.to_le_bytes());
    b.extend_from_slice(&0u32.to_le_bytes());
    b.extend_from_slice(&0u32.to_le_bytes());
    b.extend_from_slice(&[0, 0, 255, 10, 200, 30, 0, 0]);
    b
}

fn setup_calls(unit: u32, texture: u32) -> Vec<DeviceCall> {
    vec![
        DeviceCall::ActiveTexture { unit },
        DeviceCall::BindTexture { target: GL_TEXTURE_2D, texture },
        DeviceCall::TexParameteri { target: GL_TEXTURE_2D, pname: GL_TEXTURE_MIN_FILTER, param: GL_LINEAR },
        DeviceCall::TexParameteri { target: GL_TEXTURE_2D, pname: GL_TEXTURE_MAG_FILTER, param: GL_LINEAR },
        DeviceCall::TexParameteri { target: GL_TEXTURE_2D, pname: GL_TEXTURE_WRAP_S, param: GL_CLAMP_TO_EDGE },
        DeviceCall::TexParameteri { target: GL_TEXTURE_2D, pname: GL_TEXTURE_WRAP_T, param: GL_CLAMP_TO_EDGE },
    ]
}

#[test]
fn missing_vertex_source_fails_without_compiling() {
    let (state, action) = LoadShaderStage(
        ShaderLoadState::Start,
        ShaderLoadEvent::SourcesChecked { vertex_found: false, fragment_found: true },
    );
    assert_eq!(state, ShaderLoadState::Failed(RenderError::ResourceNotFound));
    assert_eq!(action, ShaderLoadAction::Abort(RenderError::ResourceNotFound));
    let (state2, action2) = LoadShaderStage(state, ShaderLoadEvent::ProgramCreated(1));
    assert_eq!(state2, state);
    assert_eq!(action2, ShaderLoadAction::Wait);
    let (_, action3) = LoadShaderStage(state, ShaderLoadEvent::ShaderCompiled { shader: 2, ok: true });
    assert_eq!(action3, ShaderLoadAction::Wait);
}

#[test]
fn missing_fragment_source_fails() {
    let (_, action) = LoadShaderStage(
        ShaderLoadState::Start,
        ShaderLoadEvent::SourcesChecked { vertex_found: true, fragment_found: false },
    );
    assert_eq!(action, ShaderLoadAction::Abort(RenderError::ResourceNotFound));
}

#[test]
fn shader_stage_loads_fragment_then_vertex_then_links() {
    let mut state = ShaderLoadState::Start;
    let events = [
        ShaderLoadEvent::SourcesChecked { vertex_found: true, fragment_found: true },
        ShaderLoadEvent::ProgramCreated(5),
        ShaderLoadEvent::ShaderCompiled { shader: 6, ok: true },
        ShaderLoadEvent::ShaderCompiled { shader: 7, ok: true },
        ShaderLoadEvent::ProgramLinked(true),
    ];
    let mut actions = Vec::new();
    for e in events {
        let (next, action) = LoadShaderStage(state, e);
        state = next;
        actions.push(action);
    }
    assert_eq!(
        actions,
        vec![
            ShaderLoadAction::CreateProgram,
            ShaderLoadAction::CompileAndAttach { program: 5, kind: GL_FRAGMENT_SHADER },
            ShaderLoadAction::CompileAndAttach { program: 5, kind: GL_VERTEX_SHADER },
            ShaderLoadAction::Link { program: 5 },
            ShaderLoadAction::Activate(ShaderStage {
                program: ShaderProgram(5),
                fragShader: ShaderCode(6),
                vertShader: ShaderCode(7),
            }),
        ]
    );
    assert_eq!(state, ShaderLoadState::Finished);
}

#[test]
fn compile_and_link_failures_are_errors() {
    let fragment = ShaderLoadState::AwaitingFragment { program: 1 };
    assert_eq!(
        LoadShaderStage(fragment, ShaderLoadEvent::ShaderCompiled { shader: 2, ok: false }),
        (ShaderLoadState::Failed(RenderError::CompileError), ShaderLoadAction::Abort(RenderError::CompileError))
    );
    let vertex = ShaderLoadState::AwaitingVertex { program: 1, fragment: 2 };
    assert_eq!(
        LoadShaderStage(vertex, ShaderLoadEvent::ShaderCompiled { shader: 3, ok: false }).1,
        ShaderLoadAction::Abort(RenderError::CompileError)
    );
    let link = ShaderLoadState::AwaitingLink { program: 1, fragment: 2, vertex: 3 };
    assert_eq!(
        LoadShaderStage(link, ShaderLoadEvent::ProgramLinked(false)),
        (ShaderLoadState::Failed(RenderError::LinkError), ShaderLoadAction::Abort(RenderError::LinkError))
    );
    assert_eq!(
        LoadShaderStage(link, ShaderLoadEvent::ProgramCreated(4)),
        (link, ShaderLoadAction::Wait)
    );
}

#[test]
fn sampler_index_eight_is_rejected_before_decoding() {
    let garbage = vec![1u8, 2, 3];
    assert_eq!(LoadTexture(8, &garbage), Err(RenderError::InvalidSamplerIndex));
    assert_eq!(LoadTexture(8, &two_pixel_bmp()), Err(RenderError::InvalidSamplerIndex));
    assert_eq!(LoadTexture(-1, &two_pixel_bmp()), Err(RenderError::InvalidSamplerIndex));
}

#[test]
fn sampler_units_zero_to_seven() {
    assert_eq!(SamplerUnit(0), Ok(GL_TEXTURE0));
    assert_eq!(SamplerUnit(7), Ok(GL_TEXTURE0 + 7));
    assert_eq!(SamplerUnit(8), Err(RenderError::InvalidSamplerIndex));
    assert_eq!(SamplerUnit(-1), Err(RenderError::InvalidSamplerIndex));
}

#[test]
fn undecodable_image_is_decode_error() {
    assert_eq!(LoadTexture(0, &vec![1u8, 2, 3, 4]), Err(RenderError::DecodeError));
}

#[test]
fn texture_decodes_to_rgb_and_uploads() {
    let img = LoadTexture(3, &two_pixel_bmp()).unwrap();
    assert_eq!(img, DecodedImage { unit: 3, width: 2, height: 1, pixels: vec![255, 0, 0, 30, 200, 10] });
    let mut calls = Vec::new();
    let tex = UploadTexture(img.unit, 42, img.width, img.height, img.pixels.clone(), &mut calls).unwrap();
    assert_eq!(tex, Texture { identifier: 42, unit: 3, sampler: GL_TEXTURE0 + 3 });
    let mut expected = setup_calls(GL_TEXTURE0 + 3, 42);
    expected.push(DeviceCall::TexImage2D { width: 2, height: 1, pixels: img.pixels });
    assert_eq!(calls, expected);
}

#[test]
fn upload_texture_issues_setup_then_pixels() {
    let mut calls = vec![DeviceCall::Clear { mask: 0 }];
    let tex = UploadTexture(7, 3, 1, 1, vec![9, 8, 7], &mut calls).unwrap();
    assert_eq!(tex.sampler, GL_TEXTURE0 + 7);
    assert_eq!(calls.len(), 8);
    assert_eq!(calls[1..7].to_vec(), setup_calls(GL_TEXTURE0 + 7, 3));
    assert_eq!(calls[7], DeviceCall::TexImage2D { width: 1, height: 1, pixels: vec![9, 8, 7] });
    assert_eq!(UploadTexture(8, 3, 1, 1, vec![], &mut calls), Err(RenderError::InvalidSamplerIndex));
}

#[test]
fn data_paths_are_under_the_data_directory() {
    assert_eq!(GetFullDataPath("default"), "/opt/firmware/data/default");
    assert_eq!(GetFullDataPath("test.png"), "/opt/firmware/data/test.png");
}

#[test]
fn vehicle_data_starts_idle() {
    let d = VehicleData::new();
    assert!(d.throttleActive);
    assert_eq!(d.engineRPM, 2000);
    assert_eq!(d.batteryCharge, 100);
    assert_eq!(d.turnSignal, TurnSignalStatus::Off);
    assert!(!d.fullBeamActive);
}

#[test]
fn config_comments_and_blank_lines_are_skipped() {
    assert_eq!(ParseConfigLine("# GearRatio = 3"), ConfigLine::Skip);
    assert_eq!(ParseConfigLine(""), ConfigLine::Skip);
    assert_eq!(ParseConfigLine("   \t "), ConfigLine::Skip);
}

#[test]
fn config_known_keys_carry_trimmed_values() {
    assert_eq!(ParseConfigLine("GearRatio = 3.5"), ConfigLine::GearRatio("3.5".to_string()));
    assert_eq!(
        ParseConfigLine("  DriveWheelDiameter=0.6 \t"),
        ConfigLine::DriveWheelDiameter("0.6".to_string())
    );
    assert_eq!(ParseConfigLine("GearRatio ="), ConfigLine::GearRatio(String::new()));
}

#[test]
fn config_unknown_key_is_reported_by_name() {
    assert_eq!(ParseConfigLine(" Colour = red"), ConfigLine::UnknownKey("Colour".to_string()));
    assert_eq!(ParseConfigLine("gearratio = 1"), ConfigLine::UnknownKey("gearratio".to_string()));
}

#[test]
fn config_lines_without_exactly_one_separator_are_malformed() {
    assert_eq!(ParseConfigLine("GearRatio 3.5"), ConfigLine::Malformed);
    assert_eq!(ParseConfigLine("GearRatio = 3 = 4"), ConfigLine::Malformed);
    assert_eq!(ParseConfigLine(" # not a comment"), ConfigLine::Malformed);
}
