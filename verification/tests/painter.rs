use xplm_egui::geometry::WindowRect;
use xplm_egui::painter::{
    clip_scissor, gl_error_name, supports_srgb_framebuffer, texture_parameters, texture_upload,
    Scissor, TextureFilter, TextureOptions, TextureParameters, TextureUpload, TextureWrapMode,
};

#[test]
fn filter_codes() {
    assert_eq!(TextureFilter::Linear.glow_code(None), 0x2601);
    assert_eq!(TextureFilter::Nearest.glow_code(None), 0x2600);
    assert_eq!(TextureFilter::Linear.glow_code(Some(TextureFilter::Linear)), 0x2703);
    assert_eq!(TextureFilter::Nearest.glow_code(Some(TextureFilter::Linear)), 0x2702);
    assert_eq!(TextureFilter::Linear.glow_code(Some(TextureFilter::Nearest)), 0x2701);
    assert_eq!(TextureFilter::Nearest.glow_code(Some(TextureFilter::Nearest)), 0x2700);
}

#[test]
fn wrap_codes() {
    assert_eq!(TextureWrapMode::ClampToEdge.glow_code(), 0x812F);
    assert_eq!(TextureWrapMode::Repeat.glow_code(), 0x2901);
    assert_eq!(TextureWrapMode::MirroredRepeat.glow_code(), 0x8370);
}

#[test]
fn gl_error_names() {
    assert_eq!(gl_error_name(0), None);
    assert_eq!(gl_error_name(0x0500), Some("GL_INVALID_ENUM"));
    assert_eq!(gl_error_name(0x0501), Some("GL_INVALID_VALUE"));
    assert_eq!(gl_error_name(0x0502), Some("GL_INVALID_OPERATION"));
    assert_eq!(gl_error_name(0x0503), Some("GL_STACK_OVERFLOW"));
    assert_eq!(gl_error_name(0x0504), Some("GL_STACK_UNDERFLOW"));
    assert_eq!(gl_error_name(0x0505), Some("GL_OUT_OF_MEMORY"));
    assert_eq!(gl_error_name(0x0506), Some("GL_INVALID_FRAMEBUFFER_OPERATION"));
    assert_eq!(gl_error_name(0x0507), Some("GL_CONTEXT_LOST"));
    assert_eq!(gl_error_name(0x8031), Some("GL_TABLE_TOO_LARGE1"));
    assert_eq!(gl_error_name(0x9242), Some("CONTEXT_LOST_WEBGL"));
    assert_eq!(gl_error_name(0x1234), Some("<unknown>"));
}

#[test]
fn clip_scissor_inside_viewport() {
    let vp = WindowRect::from_left_top_right_bottom(0, 100, 200, 0);
    assert_eq!(clip_scissor(&vp, 10, 20, 30, 40), Scissor { x: 10, y: 40, width: 30, height: 40 });
}

#[test]
fn clip_scissor_clamps_to_viewport() {
    let vp = WindowRect::from_left_top_right_bottom(0, 100, 200, 0);
    assert_eq!(clip_scissor(&vp, -10, -20, 500, 40), Scissor { x: 0, y: 80, width: 200, height: 20 });
    let off = WindowRect::from_left_top_right_bottom(50, 300, 250, 200);
    assert_eq!(clip_scissor(&off, 0, 0, 200, 100), Scissor { x: 50, y: 200, width: 200, height: 100 });
    assert_eq!(clip_scissor(&off, 500, 500, 10, 10), Scissor { x: 250, y: 200, width: 0, height: 0 });
}

#[test]
fn texture_parameters_follow_options() {
    let p = texture_parameters(&TextureOptions {
        magnification: TextureFilter::Linear,
        minification: TextureFilter::Nearest,
        wrap_mode: TextureWrapMode::Repeat,
        mipmap_mode: Some(TextureFilter::Linear),
    });
    assert_eq!(
        p,
        TextureParameters {
            mag_filter: 0x2601,
            min_filter: 0x2702,
            wrap_s: 0x2901,
            wrap_t: 0x2901,
            generate_mipmap: true,
        }
    );
    let q = texture_parameters(&TextureOptions {
        magnification: TextureFilter::Nearest,
        minification: TextureFilter::Linear,
        wrap_mode: TextureWrapMode::ClampToEdge,
        mipmap_mode: None,
    });
    assert_eq!((q.mag_filter, q.min_filter, q.generate_mipmap), (0x2600, 0x2601, false));
}

#[test]
fn texture_upload_partial_or_whole() {
    assert_eq!(
        texture_upload(Some((3, 4)), 16, 8),
        TextureUpload::Partial { x: 3, y: 4, width: 16, height: 8 }
    );
    assert_eq!(texture_upload(None, 2048, 64), TextureUpload::Whole { width: 2048, height: 64 });
}

#[test]
fn srgb_extension_detection() {
    let yes = vec![String::from("GL_EXT_foo"), String::from("GLX_ARB_framebuffer_sRGB")];
    assert!(supports_srgb_framebuffer(&yes));
    let no = vec![String::from("GL_ARB_framebuffer_sRGB_extra"), String::from("GL_EXT_bar")];
    assert!(!supports_srgb_framebuffer(&no));
    assert!(!supports_srgb_framebuffer(&Vec::new()));
}

#[test]
fn srgb_extension_detection_edges() {
    assert!(supports_srgb_framebuffer(&vec![String::from("ARB_framebuffer_sRGB")]));
    assert!(supports_srgb_framebuffer(&vec![String::from("ééARB_framebuffer_sRGB")]));
    assert!(!supports_srgb_framebuffer(&vec![String::from("framebuffer_sRGB")]));
    assert!(!supports_srgb_framebuffer(&vec![String::from("ARB_framebuffer_sRGé")]));
    assert!(!supports_srgb_framebuffer(&vec![String::new()]));
}
