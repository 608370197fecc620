use wgpu::TextureFormat;
use y_engine::state::common::render::{CompositeAlphaMode, PresentMode, SurfaceConfiguration};
use y_engine::state::starting::init_gpu::{
    choose_among, choose_surface_format, surface_configuration, MAXIMUM_FRAME_LATENCY,
};

#[test]
fn first_flagged_place_is_chosen() {
    assert_eq!(choose_among(&[false, true, true]), 1);
    assert_eq!(choose_among(&[true, true]), 0);
    assert_eq!(choose_among(&[true]), 0);
    assert_eq!(choose_among(&[false, false, false, true]), 3);
}

#[test]
fn first_place_is_chosen_where_none_is_flagged() {
    assert_eq!(choose_among(&[false]), 0);
    assert_eq!(choose_among(&[false, false, false]), 0);
}

#[test]
fn first_gamma_corrected_format_is_chosen() {
    assert_eq!(
        choose_surface_format(&[
            TextureFormat::Bgra8Unorm,
            TextureFormat::Bgra8UnormSrgb,
            TextureFormat::Rgba8UnormSrgb,
        ]),
        1
    );
    assert_eq!(
        choose_surface_format(&[TextureFormat::Rgba8UnormSrgb, TextureFormat::Bgra8UnormSrgb]),
        0
    );
    assert_eq!(
        choose_surface_format(&[
            TextureFormat::Rgba16Float,
            TextureFormat::Rgb10a2Unorm,
            TextureFormat::Bgra8Unorm,
            TextureFormat::Rgba8UnormSrgb,
        ]),
        3
    );
}

#[test]
fn first_format_is_chosen_where_none_is_gamma_corrected() {
    assert_eq!(choose_surface_format(&[TextureFormat::Bgra8Unorm]), 0);
    assert_eq!(
        choose_surface_format(&[
            TextureFormat::Rgba16Float,
            TextureFormat::Bgra8Unorm,
            TextureFormat::Rgba8Unorm,
        ]),
        0
    );
}

#[test]
fn surface_is_configured_for_the_window() {
    assert_eq!(
        surface_configuration(
            &[TextureFormat::Bgra8Unorm, TextureFormat::Rgba8Unorm, TextureFormat::Bgra8UnormSrgb],
            64,
            48
        ),
        SurfaceConfiguration {
            format: TextureFormat::Bgra8UnormSrgb,
            width: 64,
            height: 48,
            present_mode: PresentMode::AutoVsync,
            alpha_mode: CompositeAlphaMode::Auto,
            view_formats: Vec::new(),
            desired_maximum_frame_latency: 2,
        }
    );
    assert_eq!(MAXIMUM_FRAME_LATENCY, 2);
}

#[test]
fn surface_falls_back_to_the_first_format() {
    let config =
        surface_configuration(&[TextureFormat::Rgba16Float, TextureFormat::Bgra8Unorm], 1, 2);
    assert_eq!(config.format, TextureFormat::Rgba16Float);
    assert_eq!((config.width, config.height), (1, 2));
}
