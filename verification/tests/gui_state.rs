use gpu_shell::inbuilt::gui_state::EguiRenderer;
use gpu_shell::utility::structs::Extent;

#[test]
fn registry_starts_empty() {
    let renderer = EguiRenderer::new();
    assert_eq!(renderer.texture(0), None);
    assert_eq!(renderer.texture(u64::MAX), None);
    assert!(renderer.has_free_handle());
}

#[test]
fn registry_hands_out_handles_in_order() {
    let mut renderer = EguiRenderer::new();
    let a = renderer.register_native_texture(Extent::new(1, 2));
    let b = renderer.register_native_texture(Extent::new(3, 4));
    let c = renderer.register_native_texture(Extent::new(5, 6));
    assert_eq!((a, b, c), (0, 1, 2));
    assert_eq!(renderer.texture(a), Some(Extent::new(1, 2)));
    assert_eq!(renderer.texture(b), Some(Extent::new(3, 4)));
    assert_eq!(renderer.texture(c), Some(Extent::new(5, 6)));
}

#[test]
fn registry_free_removes_only_that_handle() {
    let mut renderer = EguiRenderer::new();
    let a = renderer.register_native_texture(Extent::new(1, 2));
    let b = renderer.register_native_texture(Extent::new(3, 4));
    renderer.free_texture(a);
    assert_eq!(renderer.texture(a), None);
    assert_eq!(renderer.texture(b), Some(Extent::new(3, 4)));
}

#[test]
fn registry_free_of_unknown_handle_changes_nothing() {
    let mut renderer = EguiRenderer::new();
    let a = renderer.register_native_texture(Extent::new(1, 2));
    renderer.free_texture(99);
    assert_eq!(renderer.texture(a), Some(Extent::new(1, 2)));
    assert_eq!(renderer.register_native_texture(Extent::new(7, 7)), 1);
}

#[test]
fn registry_does_not_reuse_a_freed_handle() {
    let mut renderer = EguiRenderer::new();
    let a = renderer.register_native_texture(Extent::new(1, 2));
    renderer.free_texture(a);
    let b = renderer.register_native_texture(Extent::new(1, 2));
    assert_ne!(a, b);
    assert_eq!(renderer.texture(a), None);
}
