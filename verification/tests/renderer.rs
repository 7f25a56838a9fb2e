use os_gaming::gui::renderer::{BlendMode, Color, Rect, Renderer, RendererError, TextureFormat};

#[test]
fn zero_size_is_refused() {
    match Renderer::new(0, 10) {
        Err(RendererError::InvalidParameters(m)) => assert_eq!(m, "Width and height must be non-zero."),
        _ => panic!("expected InvalidParameters"),
    }
}

#[test]
fn renderer_draws_into_its_own_framebuffer() {
    let r = Renderer::new(800, 600).unwrap();
    assert_eq!(r.dimensions(), (800, 600));
    assert!(!r.is_accelerated());
    assert!(!r.using_gpu_provided_framebuffer);
    assert_eq!(r.framebuffer_address, 0);
    assert_eq!(r.framebuffer_pitch_bytes, 3200);
    assert_eq!(r.framebuffer_size_bytes, 800 * 600 * 4);
    assert_eq!(r.software_framebuffer.len(), 800 * 600);
    let caps = r.capabilities();
    assert_eq!(caps.max_texture_size, (32768, 32768));
    assert_eq!(caps.supports_blend_modes, vec![BlendMode::NoBlend, BlendMode::Alpha]);
    assert!(caps.supports_render_targets);
    assert!(caps.supports_shaders);
    assert_eq!(caps.supported_texture_formats, vec![TextureFormat::RGBA8, TextureFormat::BGRA8]);
    assert_eq!(r.current_blend_mode, BlendMode::Alpha);
}

#[test]
fn clip_rect_is_cut_to_the_screen() {
    let mut r = Renderer::new(100, 50).unwrap();
    r.set_clip_rect(Some(Rect::new(90, 40, 20, 20)));
    assert_eq!(r.clip_rect, Some(Rect::new(90, 40, 10, 10)));
    r.set_clip_rect(Some(Rect::new(200, 0, 5, 5)));
    assert_eq!(r.clip_rect, None);
    r.set_blend_mode(BlendMode::Additive);
    assert_eq!(r.current_blend_mode, BlendMode::Additive);
    assert!(r.present().is_ok());
}

#[test]
fn textures_are_checked_then_numbered_by_the_gpu() {
    let mut r = Renderer::new(64, 64).unwrap();
    assert!(matches!(r.create_texture(0, 4, TextureFormat::RGBA8, &[]), Err(RendererError::InvalidParameters(_))));
    assert!(matches!(r.create_texture(40000, 4, TextureFormat::A8, &[]), Err(RendererError::InvalidParameters(_))));
    assert!(matches!(r.create_texture(2, 2, TextureFormat::RGB8, &[0; 11]), Err(RendererError::InvalidParameters(_))));
    assert_eq!(r.create_texture(2, 2, TextureFormat::RGB8, &[0; 12]).unwrap(), 1);
    assert_eq!(r.create_texture(1, 1, TextureFormat::A8, &[0; 1]).unwrap(), 2);
    assert!(r.destroy_texture(1).is_ok());
    match r.destroy_texture(1) {
        Err(RendererError::ResourceNotFound(m)) => assert_eq!(m, "Texture ID 1 not found for destruction."),
        _ => panic!("expected ResourceNotFound"),
    }
}

#[test]
fn texture_draws_are_taken_by_the_gpu() {
    let mut r = Renderer::new(64, 64).unwrap();
    assert!(matches!(r.texture_draw_plan(1, Rect::new(100, 100, 5, 5)), Ok(None)));
    assert!(matches!(r.texture_draw_plan(3, Rect::new(0, 0, 5, 5)), Ok(None)));
}

#[test]
fn clear_fills_the_renderer_framebuffer() {
    let mut r = Renderer::new(64, 64).unwrap();
    r.clear(Color::new(1, 2, 3, 4));
    assert!(r.software_framebuffer.iter().all(|&p| p == 0x04010203));
    assert_eq!(Color::new(1, 2, 3, 4).to_argb(), 0x04010203);
}
