use d3d9::com::ComObject;
use d3d9::standard::interfaces::{Context, Device, Surface, Texture};
use d3d9::standard::types::{DeclMethod, DeclType, DeclUsage, VertexElement};

#[test]
fn context_rejects_a_null_factory_result() {
    assert!(Context::try_with_ptr(0).is_none());
}

#[test]
fn context_wraps_a_factory_result() {
    let context = Context::try_with_ptr(0x1234).unwrap();
    assert_eq!(context.as_ptr(), 0x1234);
}

#[test]
fn device_creation_succeeds_on_zero_status() {
    let device = Device::from_created(0, 0x5000, b"", 0).unwrap();
    assert_eq!(device.as_ptr(), 0x5000);
}

#[test]
fn device_creation_fails_with_the_exact_code() {
    let code = 0x8876_086Cu32 as i32;
    let e = match Device::from_created(code, 0, b"device lost", 11) {
        Ok(_) => panic!("expected a failure"),
        Err(e) => e,
    };
    assert_eq!(e.code(), 0x8876_086C);
    assert_eq!(e.message().as_slice(), b"device lost");
}

#[test]
fn surface_creation_translates_its_status() {
    assert!(Surface::from_created(0, 0x6000, b"", 0).is_ok());
    assert!(Surface::from_created(1, 0, b"", 0).is_err());
}

#[test]
fn texture_keeps_its_creation_size() {
    let texture = Texture::from_created(0, 0x7000, (64, 32), b"", 0).unwrap();
    assert_eq!(texture.size(), (64, 32));
    assert_eq!(texture.as_ptr(), 0x7000);
}

#[test]
fn texture_lock_length_is_width_height_elements() {
    let texture = Texture::with_ptr(0x7000, (64, 32));
    assert_eq!(texture.lock_element_count(4), 64 * 32 * 4);
}

#[test]
fn buffer_lock_counts_whole_elements() {
    let buffer = d3d9::standard::interfaces::VertexBuffer::with_ptr(0x8000);
    assert_eq!(buffer.lock_element_count(100, 8), 12);
    let buffer = d3d9::standard::interfaces::IndexBuffer::with_ptr(0x8100);
    assert_eq!(buffer.lock_element_count(64, 2), 32);
}

#[test]
fn interface_clone_and_release_balance_on_the_mock_object() {
    let mut obj = ComObject::new();
    let device = Device::with_ptr(0x5000);
    let shared = device.retain(&mut obj);
    assert_eq!(obj.count(), 2);
    assert_eq!(shared.as_ptr(), device.as_ptr());
    shared.release(&mut obj);
    device.release(&mut obj);
    assert_eq!(obj.count(), 0);
}

#[test]
fn declaration_elements_end_with_the_marker() {
    let elements = [
        VertexElement {
            stream: 0,
            offset: 0,
            kind: DeclType::Float3,
            method: DeclMethod::Default,
            usage: DeclUsage::Position,
            usage_index: 0,
        },
        VertexElement {
            stream: 0,
            offset: 12,
            kind: DeclType::Color,
            method: DeclMethod::Default,
            usage: DeclUsage::Color,
            usage_index: 0,
        },
    ];
    let raw = Device::vertex_declaration_elements(&elements);
    assert_eq!(raw.len(), 3);
    assert_eq!(raw[0].offset, 0);
    assert_eq!(raw[0].kind, 2);
    assert_eq!(raw[1].offset, 12);
    assert_eq!(raw[1].usage, 10);
    assert_eq!(raw[2].stream, 0xFF);
    assert_eq!(raw[2].kind, 17);
}

#[test]
fn empty_declaration_is_just_the_marker() {
    let raw = Device::vertex_declaration_elements(&[]);
    assert_eq!(raw.len(), 1);
    assert_eq!(raw[0].stream, 0xFF);
}
