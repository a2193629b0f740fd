use d3d9::standard::types::{
    nul_terminated_prefix, Adapter, AdapterIdentifier, BehaviorFlags, Clear, Color, DeclMethod,
    DeclType, DeclUsage, DeviceType, DisplayMode, Format, Guid, Handle, MultiSampleType, Pool,
    PresentationParameters, PrimitiveType, QueryType, RawAdapterIdentifier, RawDisplayMode,
    RawVertexElement, ResourceType, StateBlockType, SwapEffect, Usage, VertexElement,
};

#[test]
fn default_adapter_is_ordinal_zero() {
    assert_eq!(u32::from(Adapter::default()), 0);
}

#[test]
fn color_code_is_its_word() {
    assert_eq!(u32::from(Color(0xFFA0B0C0)), 0xFFA0B0C0);
}

#[test]
fn handle_code_is_its_word() {
    assert_eq!(u32::from(Handle(77)), 77);
}

#[test]
fn multi_sample_codes() {
    assert_eq!(u32::from(MultiSampleType::Disabled), 0);
    assert_eq!(u32::from(MultiSampleType::NonMaskable), 1);
    assert_eq!(u32::from(MultiSampleType::Samples(8)), 8);
}

#[test]
fn format_codes_match_the_native_table() {
    assert_eq!(Format::Unknown.code(), 0);
    assert_eq!(Format::R8G8B8.code(), 20);
    assert_eq!(Format::A8R8G8B8.code(), 21);
    assert_eq!(Format::X8R8G8B8.code(), 22);
    assert_eq!(Format::A16B16G16R16.code(), 36);
    assert_eq!(Format::L16.code(), 81);
    assert_eq!(Format::Index16.code(), 101);
    assert_eq!(Format::Index32.code(), 102);
    assert_eq!(Format::BinaryBuffer.code(), 199);
}

#[test]
fn four_character_formats_pack_their_ascii_bytes() {
    assert_eq!(Format::UYVY.code(), 0x5956_5955);
    assert_eq!(Format::YUY2.code(), 0x3259_5559);
    assert_eq!(Format::DXT1.code(), 0x3154_5844);
    assert_eq!(Format::DXT5.code(), 0x3554_5844);
    assert_eq!(Format::R8g8B8g8.code(), 0x4742_4752);
    assert_eq!(Format::G8r8G8b8.code(), 0x4247_5247);
}

#[test]
fn format_code_round_trips() {
    for f in [
        Format::Unknown,
        Format::R8G8B8,
        Format::DXT3,
        Format::D24S8,
        Format::VertexData,
        Format::CxV8U8,
        Format::A1,
        Format::BinaryBuffer,
    ] {
        assert_eq!(Format::from_code(f.code()), Some(f));
    }
}

#[test]
fn format_from_unknown_code_is_none() {
    assert_eq!(Format::from_code(3), None);
    assert_eq!(Format::from_code(0xDEADBEEF), None);
}

#[test]
fn simple_enum_codes() {
    assert_eq!(Pool::Default.code(), 0);
    assert_eq!(Pool::Managed.code(), 1);
    assert_eq!(DeviceType::Hal.code(), 1);
    assert_eq!(DeviceType::NullRef.code(), 4);
    assert_eq!(ResourceType::Surface.code(), 1);
    assert_eq!(ResourceType::IndexBuffer.code(), 7);
    assert_eq!(SwapEffect::Discard.code(), 1);
    assert_eq!(SwapEffect::Overlay.code(), 4);
    assert_eq!(PrimitiveType::PointList.code(), 1);
    assert_eq!(PrimitiveType::TriangleFan.code(), 6);
    assert_eq!(StateBlockType::All.code(), 1);
    assert_eq!(StateBlockType::Vertex.code(), 3);
}

#[test]
fn query_type_codes() {
    assert_eq!(QueryType::VertexCache.code(), 4);
    assert_eq!(QueryType::Event.code(), 8);
    assert_eq!(QueryType::Occlusion.code(), 9);
    assert_eq!(QueryType::TimestampRefQ.code(), 12);
    assert_eq!(QueryType::MemoryPressure.code(), 19);
}

#[test]
fn clear_with_flags_set_their_bits() {
    assert_eq!(u32::from(Clear::default().with_target()), 0x1);
    assert_eq!(u32::from(Clear::default().with_zbuffer()), 0x2);
    assert_eq!(u32::from(Clear::default().with_stencil()), 0x4);
    let all = Clear::default().with_target().with_zbuffer().with_stencil();
    assert_eq!(u32::from(all), 0x7);
}

#[test]
fn clear_getters_read_their_bits() {
    let flags = Clear::default().with_target().with_stencil();
    assert!(flags.target());
    assert!(!flags.zbuffer());
    assert!(flags.stencil());
}

#[test]
fn clear_setters_clear_their_bits() {
    let mut flags = Clear::default().with_target().with_zbuffer();
    flags.set_target(false);
    assert_eq!(flags.0, 0x2);
}

#[test]
fn behavior_flag_bits_match_the_native_constants() {
    let mut flags = BehaviorFlags::default();
    flags.set_fpu_preserve(true);
    assert_eq!(flags.0, 0x2);
    flags.set_fpu_preserve(false);
    flags.set_hardware_vertex_processing(true);
    assert_eq!(flags.0, 0x40);
    flags.set_no_window_changes(true);
    assert_eq!(flags.0, 0x840);
    assert!(flags.no_window_changes());
    assert!(!flags.pure_device());
}

#[test]
fn usage_flag_bits_match_the_native_constants() {
    let mut usage = Usage::default();
    usage.set_render_target(true);
    assert_eq!(usage.0, 0x1);
    usage.set_render_target(false);
    usage.set_dynamic(true);
    assert_eq!(usage.0, 0x200);
    usage.set_write_only(true);
    assert_eq!(usage.0, 0x208);
    usage.set_text_api(true);
    assert_eq!(usage.0, 0x1000_0208);
    assert!(usage.dynamic());
    assert!(!usage.depth_stencil());
}

#[test]
fn fvf_combined_entries_are_flag_unions() {
    let mut fvf = d3d9::standard::types::FVF(0);
    fvf.set_xyz(true);
    assert_eq!(fvf.0, 0x002);
    fvf.set_xyz(false);
    fvf.set_xyzb5(true);
    assert_eq!(fvf.0, 0x00E);
    fvf.set_xyzb5(false);
    fvf.set_xyzw(true);
    assert_eq!(fvf.0, 0x4002);
    fvf.set_tex7(true);
    assert_eq!(fvf.0, 0x4702);
    assert!(fvf.tex7());
    assert!(fvf.xyz());
}

#[test]
fn decl_codes_match_the_native_table() {
    assert_eq!(DeclType::Float1.code(), 0);
    assert_eq!(DeclType::Color.code(), 4);
    assert_eq!(DeclType::Float16By4.code(), 16);
    assert_eq!(DeclMethod::Default.code(), 0);
    assert_eq!(DeclMethod::LookUpPreSampled.code(), 6);
    assert_eq!(DeclUsage::Position.code(), 0);
    assert_eq!(DeclUsage::TexCoord.code(), 5);
    assert_eq!(DeclUsage::Sample.code(), 13);
}

#[test]
fn vertex_element_marshals_every_field() {
    let element = VertexElement {
        stream: 2,
        offset: 12,
        kind: DeclType::Float3,
        method: DeclMethod::Default,
        usage: DeclUsage::Normal,
        usage_index: 1,
    };
    let raw = element.to_raw();
    assert_eq!(raw.stream, 2);
    assert_eq!(raw.offset, 12);
    assert_eq!(raw.kind, 2);
    assert_eq!(raw.method, 0);
    assert_eq!(raw.usage, 3);
    assert_eq!(raw.usage_index, 1);
}

#[test]
fn end_marker_closes_the_element_array() {
    let marker = RawVertexElement::end_marker();
    assert_eq!(marker.stream, 0xFF);
    assert_eq!(marker.offset, 0);
    assert_eq!(marker.kind, 17);
    assert_eq!(marker.method, 0);
    assert_eq!(marker.usage, 0);
    assert_eq!(marker.usage_index, 0);
}

#[test]
fn display_mode_round_trips_through_its_raw_shape() {
    let mode = DisplayMode { width: 1920, height: 1080, refresh_rate: 60, format: Format::X8R8G8B8 };
    let raw = mode.to_raw();
    assert_eq!(raw.width, 1920);
    assert_eq!(raw.format, 22);
    assert_eq!(DisplayMode::from_raw(&raw), Some(mode));
}

#[test]
fn display_mode_with_unknown_format_code_is_rejected() {
    let raw = RawDisplayMode { width: 640, height: 480, refresh_rate: 60, format: 12345 };
    assert_eq!(DisplayMode::from_raw(&raw), None);
}

#[test]
fn default_presentation_parameters_are_empty() {
    let pp = PresentationParameters::default();
    assert_eq!(pp.back_buffer_width, 0);
    assert_eq!(pp.back_buffer_height, 0);
    assert!(matches!(pp.back_buffer_format, Format::Unknown));
    assert_eq!(pp.back_buffer_count, 0);
    assert!(matches!(pp.multi_sample_type, MultiSampleType::Disabled));
    assert_eq!(pp.multi_sample_quality, 0);
    assert!(matches!(pp.swap_effect, SwapEffect::Discard));
    assert_eq!(pp.device_window, 0);
    assert!(!pp.windowed);
    assert!(!pp.enable_auto_depth_stencil);
    assert!(matches!(pp.auto_depth_stencil_format, Format::Unknown));
    assert_eq!(pp.flags, 0);
    assert_eq!(pp.refresh_rate, 0);
    assert_eq!(pp.presentation_interval, 0);
}

#[test]
fn presentation_parameters_marshal_booleans_as_words() {
    let mut pp = PresentationParameters::default();
    pp.back_buffer_width = 800;
    pp.back_buffer_format = Format::A8R8G8B8;
    pp.windowed = true;
    pp.multi_sample_type = MultiSampleType::Samples(4);
    let raw = pp.to_raw();
    assert_eq!(raw.back_buffer_width, 800);
    assert_eq!(raw.back_buffer_format, 21);
    assert_eq!(raw.windowed, 1);
    assert_eq!(raw.enable_auto_depth_stencil, 0);
    assert_eq!(raw.multi_sample_type, 4);
    assert_eq!(raw.swap_effect, 1);
}

#[test]
fn creation_write_back_updates_the_back_buffer() {
    let mut pp = PresentationParameters::default();
    pp.windowed = true;
    let mut raw = pp.to_raw();
    raw.back_buffer_width = 1024;
    raw.back_buffer_height = 768;
    raw.back_buffer_count = 2;
    raw.back_buffer_format = 22;
    assert!(pp.apply_returned(&raw));
    assert_eq!(pp.back_buffer_width, 1024);
    assert_eq!(pp.back_buffer_height, 768);
    assert_eq!(pp.back_buffer_count, 2);
    assert!(matches!(pp.back_buffer_format, Format::X8R8G8B8));
    assert!(pp.windowed);
}

#[test]
fn creation_write_back_keeps_format_on_unknown_code() {
    let mut pp = PresentationParameters::default();
    pp.back_buffer_format = Format::R5G6B5;
    let mut raw = pp.to_raw();
    raw.back_buffer_width = 320;
    raw.back_buffer_format = 9999;
    assert!(!pp.apply_returned(&raw));
    assert_eq!(pp.back_buffer_width, 320);
    assert!(matches!(pp.back_buffer_format, Format::R5G6B5));
}

#[test]
fn nul_prefix_stops_at_the_first_nul() {
    assert_eq!(nul_terminated_prefix(b"abc\0def"), b"abc".to_vec());
    assert_eq!(nul_terminated_prefix(b"\0abc"), Vec::<u8>::new());
    assert_eq!(nul_terminated_prefix(b"abc"), b"abc".to_vec());
    assert_eq!(nul_terminated_prefix(b""), Vec::<u8>::new());
}

#[test]
fn adapter_identifier_cuts_its_names_at_their_nuls() {
    let raw = RawAdapterIdentifier {
        driver: b"igdumd64.dll\0\0\0garbage".to_vec(),
        description: b"Example Graphics 5700\0".to_vec(),
        device_name: b"\\\\.\\DISPLAY1\0".to_vec(),
        driver_version: 0x0011_0022_0033_0044,
        vendor_id: 0x8086,
        device_id: 0x1912,
        sub_sys_id: 7,
        revision: 3,
        device_identifier: Guid { data1: 1, data2: 2, data3: 3, data4: [4, 5, 6, 7, 8, 9, 10, 11] },
        whql_level: 1,
    };
    let id = AdapterIdentifier::from_raw(&raw);
    assert_eq!(id.driver, b"igdumd64.dll".to_vec());
    assert_eq!(id.description, b"Example Graphics 5700".to_vec());
    assert_eq!(id.device_name, b"\\\\.\\DISPLAY1".to_vec());
    assert_eq!(id.driver_version, 0x0011_0022_0033_0044);
    assert_eq!(id.vendor_id, 0x8086);
    assert_eq!(id.device_id, 0x1912);
    assert_eq!(id.sub_sys_id, 7);
    assert_eq!(id.revision, 3);
    assert_eq!(id.device_identifier, raw.device_identifier);
    assert_eq!(id.whql_level, 1);
}
