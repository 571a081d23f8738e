use rustquest::egl::{
    choose_config, context_attribs, pbuffer_attribs, ConfigAttribs, EglError, EglSetupError, EGL, OPENGL_ES3_BIT,
    PBUFFER_BIT, WINDOW_BIT,
};
use rustquest::geometry::{attrib_layouts, cube_indices, AttribLayout, Geometry};
use rustquest::matrix::transpose;
use rustquest::program::{attrib_names, info_log_len, str_equal, uniform_names, Program};

fn good_config() -> ConfigAttribs {
    ConfigAttribs {
        renderable_type: OPENGL_ES3_BIT | 0x1,
        surface_type: WINDOW_BIT | PBUFFER_BIT,
        red_size: 8,
        green_size: 8,
        blue_size: 8,
        alpha_size: 8,
        depth_size: 0,
        stencil_size: 0,
        samples: 0,
    }
}

#[test]
fn first_suitable_config_is_chosen() {
    let no_es3 = ConfigAttribs { renderable_type: 0x4, ..good_config() };
    let no_pbuffer = ConfigAttribs { surface_type: WINDOW_BIT, ..good_config() };
    let depth = ConfigAttribs { depth_size: 24, ..good_config() };
    let rgb565 = ConfigAttribs { red_size: 5, green_size: 6, blue_size: 5, alpha_size: 0, ..good_config() };
    let multisample = ConfigAttribs { samples: 4, ..good_config() };
    let configs = vec![no_es3, no_pbuffer, depth, rgb565, multisample, good_config(), good_config()];
    assert_eq!(choose_config(&configs), Some(5));
    assert_eq!(choose_config(&configs[..5].to_vec()), None);
    assert_eq!(choose_config(&Vec::new()), None);
}

#[test]
fn attribute_lists() {
    assert_eq!(context_attribs(), vec![0x3098, 3, 0x3038]);
    assert_eq!(pbuffer_attribs(), vec![0x3057, 16, 0x3056, 16, 0x3038]);
}

#[test]
fn egl_error_names() {
    assert_eq!(EglError::from_code(0x3001).name(), "EGL_NOT_INITIALIZED");
    assert_eq!(EglError::from_code(0x3003), EglError::BadAlloc);
    assert_eq!(EglError::from_code(0x3005).name(), "EGL_BAD_CONFIG");
    assert_eq!(EglError::from_code(0x3006).name(), "EGL_BAD_CONTEXT");
    assert_eq!(EglError::from_code(0x300A).name(), "EGL_BAD_NATIVE_PIXMAP");
    assert_eq!(EglError::from_code(0x300E).name(), "EGL_CONTEXT_LOST");
    assert_eq!(EglError::from_code(0x3000), EglError::Unknown(0x3000));
}

#[test]
fn egl_holds_the_first_suitable_config() {
    let depth = ConfigAttribs { depth_size: 24, ..good_config() };
    let other = ConfigAttribs { renderable_type: OPENGL_ES3_BIT, ..good_config() };
    let configs = vec![depth, good_config(), other];
    let (ctx, pb) = (context_attribs(), pbuffer_attribs());
    assert_eq!(EGL::new(0, 2, 3, &configs, 1, &ctx, &pb), Err(EglSetupError::NullHandle));
    assert_eq!(EGL::new(1, 0, 3, &configs, 1, &ctx, &pb), Err(EglSetupError::NullHandle));
    assert_eq!(EGL::new(1, 2, 0, &configs, 1, &ctx, &pb), Err(EglSetupError::NullHandle));
    assert_eq!(EGL::new(1, 2, 3, &configs, 0, &ctx, &pb), Err(EglSetupError::ConfigNotChosen));
    assert_eq!(EGL::new(1, 2, 3, &configs, 2, &ctx, &pb), Err(EglSetupError::ConfigNotChosen));
    assert_eq!(EGL::new(1, 2, 3, &configs, 7, &ctx, &pb), Err(EglSetupError::ConfigNotChosen));
    assert_eq!(
        EGL::new(1, 2, 3, &configs, 1, &vec![0x3098, 2, 0x3038], &pb),
        Err(EglSetupError::ContextAttribs)
    );
    assert_eq!(
        EGL::new(1, 2, 3, &configs, 1, &ctx, &vec![0x3057, 32, 0x3056, 32, 0x3038]),
        Err(EglSetupError::SurfaceAttribs)
    );
    let e = EGL::new(1, 2, 3, &configs, 1, &ctx, &pb).unwrap();
    assert_eq!((e.display(), e.context(), e.surface()), (1, 2, 3));
    assert_eq!(e.config_index(), 1);
    assert_eq!(e.config(), good_config());
}

#[test]
fn uniform_locations_are_cached() {
    let names = uniform_names();
    assert_eq!(names, vec!["uModelMatrix", "uViewMatrix", "uProjectionMatrix"]);
    assert_eq!(attrib_names(), vec!["aPosition", "aColor"]);
    let p = Program::new(7, 8, 9, &vec!["aPosition", "aColor"], vec![4, -1, 6]).unwrap();
    assert_eq!(p.uniform_location("uModelMatrix"), 4);
    assert_eq!(p.uniform_location("uViewMatrix"), -1);
    assert_eq!(p.uniform_location("uProjectionMatrix"), 6);
    assert_eq!(p.uniform_location("uColor"), -1);
    assert_eq!(p.uniform_location(""), -1);
    assert_eq!((p.program(), p.vertex_shader(), p.fragment_shader()), (7, 8, 9));
    assert!(Program::new(7, 8, 9, &attrib_names(), vec![1, 2]).is_none());
    assert!(Program::new(7, 8, 9, &vec!["aColor", "aPosition"], vec![1, 2, 3]).is_none());
    assert!(Program::new(7, 8, 9, &vec!["aPosition"], vec![1, 2, 3]).is_none());
    assert!(Program::new(7, 8, 9, &vec!["aPosition", "aColor", "aNormal"], vec![1, 2, 3]).is_none());
}

#[test]
fn string_equality() {
    assert!(str_equal("uViewMatrix", "uViewMatrix"));
    assert!(!str_equal("uViewMatrix", "uViewMatri"));
    assert!(!str_equal("abc", "abd"));
    assert!(str_equal("", ""));
}

#[test]
fn info_log_stops_at_nul() {
    assert_eq!(info_log_len(b"error: x\0\0junk"), 8);
    assert_eq!(info_log_len(b"no terminator"), 13);
    assert_eq!(info_log_len(b"\0"), 0);
    assert_eq!(info_log_len(b""), 0);
}

#[test]
fn cube_geometry() {
    let indices = cube_indices();
    assert_eq!(indices.len(), 36);
    assert!(indices.iter().all(|&i| i < 8));
    assert_eq!(&indices[..6], &[0, 2, 1, 2, 0, 3]);
    let g = Geometry::new(1, 2, 3, 192, &indices, &attrib_layouts()).unwrap();
    assert!(Geometry::new(1, 2, 3, 144, &indices, &attrib_layouts()).is_none());
    let mut flipped = indices.clone();
    flipped.swap(0, 1);
    assert!(Geometry::new(1, 2, 3, 192, &flipped, &attrib_layouts()).is_none());
    assert!(Geometry::new(1, 2, 3, 192, &indices[..35].to_vec(), &attrib_layouts()).is_none());
    let mut layouts = attrib_layouts();
    layouts[1].offset = 16;
    assert!(Geometry::new(1, 2, 3, 192, &indices, &layouts).is_none());
    assert_eq!(g.count(), 36);
    assert_eq!((g.vertex_array(), g.vertex_buffer(), g.index_buffer()), (1, 2, 3));
    assert_eq!(
        attrib_layouts(),
        vec![
            AttribLayout { index: 0, size: 3, stride: 24, offset: 0 },
            AttribLayout { index: 1, size: 3, stride: 24, offset: 12 },
        ]
    );
}

#[test]
fn transpose_round_trip() {
    let m = [[1, 2, 3, 4], [5, 6, 7, 8], [9, 10, 11, 12], [13, 14, 15, 16]];
    let t = transpose(&m);
    assert_eq!(t, [[1, 5, 9, 13], [2, 6, 10, 14], [3, 7, 11, 15], [4, 8, 12, 16]]);
    assert_eq!(transpose(&t), m);
    let f = [[0.5f32, -1.0, 0.0, 2.0], [1.0, 0.25, 3.0, 0.0], [0.0, 0.0, -1.0, -0.2], [0.0, 0.0, -1.0, 0.0]];
    assert_eq!(transpose(&transpose(&f)), f);
    assert_eq!(transpose(&f)[3][2], -0.2);
}
