use imgui_app::surface::{pick_surface_format, preferred_format_index};

#[test]
fn first_srgb_index_is_preferred() {
    assert_eq!(preferred_format_index(&vec![false, true, true]), 1);
    assert_eq!(preferred_format_index(&vec![true, false]), 0);
}

#[test]
fn first_format_without_srgb() {
    assert_eq!(preferred_format_index(&vec![false, false, false]), 0);
}

#[test]
fn picks_srgb_surface_format() {
    let formats = vec![
        wgpu::TextureFormat::Bgra8Unorm,
        wgpu::TextureFormat::Rgba8Unorm,
        wgpu::TextureFormat::Bgra8UnormSrgb,
    ];
    assert_eq!(pick_surface_format(&formats), wgpu::TextureFormat::Bgra8UnormSrgb);
}

#[test]
fn picks_first_surface_format_without_srgb() {
    let formats = vec![wgpu::TextureFormat::Rgba16Float, wgpu::TextureFormat::Bgra8Unorm];
    assert_eq!(pick_surface_format(&formats), wgpu::TextureFormat::Rgba16Float);
}
