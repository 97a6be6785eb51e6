use parallax::parallax::{
    parameter_block_size, AddressMode, BindGroupEntry, BindGroupLayoutEntry, BindingResource,
    BindingType, ParallaxBackgroundMaterial, ParallaxBackgroundPlugin, ParallaxParameters,
    PrepareAssetError, ShaderStages,
};
use parallax::scene::on_enter;
use parallax::input::Layer;
use parallax::camera::Direction;

#[test]
fn block_size_is_padded_to_sixteen() {
    assert_eq!(parameter_block_size(), 16);
}

#[test]
fn missing_texture_asks_for_a_retry() {
    let m = ParallaxBackgroundMaterial::new("backgrounds/bg0.png".to_string(), 100_000, 100_000);
    let r = m.clone().prepare_asset(false);
    assert_eq!(r, Err(PrepareAssetError::RetryNextUpdate(m)));
}

#[test]
fn resident_texture_gives_three_entries() {
    let m = ParallaxBackgroundMaterial::new("backgrounds/bg1.png".to_string(), 10_000, 20_000);
    let p = m.prepare_asset(true).unwrap();
    assert_eq!(
        p.entries,
        vec![
            BindGroupEntry { binding: 0, resource: BindingResource::TextureView },
            BindGroupEntry { binding: 1, resource: BindingResource::Sampler },
            BindGroupEntry { binding: 2, resource: BindingResource::UniformBuffer { size: 16 } },
        ]
    );
    assert_eq!(p.parameters, ParallaxParameters::new(10_000, 20_000));
    assert_eq!(p.sampler.address_mode_u, AddressMode::Repeat);
    assert_eq!(p.sampler.address_mode_v, AddressMode::Repeat);
    assert_eq!(p.sampler.address_mode_w, AddressMode::Repeat);
}

#[test]
fn layout_matches_shader_bindings() {
    let l = ParallaxBackgroundMaterial::bind_group_layout();
    assert_eq!(
        l,
        vec![
            BindGroupLayoutEntry {
                binding: 0,
                visibility: ShaderStages::Fragment,
                ty: BindingType::Texture { filterable: true, multisampled: false },
            },
            BindGroupLayoutEntry {
                binding: 1,
                visibility: ShaderStages::Fragment,
                ty: BindingType::Sampler { filtering: true },
            },
            BindGroupLayoutEntry {
                binding: 2,
                visibility: ShaderStages::VertexFragment,
                ty: BindingType::UniformBuffer { dynamic_offset: false, min_size: 16 },
            },
        ]
    );
    assert_eq!(ParallaxBackgroundPlugin::default().layout(), l);
}

#[test]
fn both_stages_use_one_shader() {
    assert_eq!(ParallaxBackgroundMaterial::vertex_shader(), "shaders/parallax.wgsl");
    assert_eq!(ParallaxBackgroundMaterial::fragment_shader(), "shaders/parallax.wgsl");
}

#[test]
fn defaults_are_still_and_untextured() {
    let m = ParallaxBackgroundMaterial::default();
    assert_eq!(m.parameters, ParallaxParameters::default());
    assert_eq!(m.parameters, ParallaxParameters::new(0, 0));
    assert_eq!(m.texture, "");
    let e = m.extract_asset();
    assert_eq!(e, m);
}

#[test]
fn scene_has_three_backgrounds_and_four_sprites() {
    let s = on_enter();
    let bg: Vec<(Layer, i64, i64, &str)> = s
        .backgrounds
        .iter()
        .map(|b| (b.layer, b.depth, b.parameters.x_speed, b.texture.as_str()))
        .collect();
    assert_eq!(
        bg,
        vec![
            (Layer::B0, 0, 100_000, "backgrounds/bg0.png"),
            (Layer::B1, 10, 10_000, "backgrounds/bg1.png"),
            (Layer::B2, 100, 1_000, "backgrounds/bg2.png"),
        ]
    );
    for b in &s.backgrounds {
        assert_eq!(b.parameters.x_speed, b.parameters.y_speed);
    }
    let fg: Vec<(Layer, i64, &str, bool, i64, i64)> = s
        .sprites
        .iter()
        .map(|f| (f.layer, f.depth, f.texture.as_str(), f.movement.toward, f.movement.x_speed, f.movement.y_speed))
        .collect();
    assert_eq!(
        fg,
        vec![
            (Layer::F1, -799, "sprites/baren.png", true, 16, 0),
            (Layer::F2, -699, "sprites/ice.png", true, 0, 16),
            (Layer::F3, -599, "sprites/lava.png", true, 32, 32),
            (Layer::F4, -499, "sprites/terran.png", true, -32, 32),
        ]
    );
    assert_eq!(s.dolly.direction, Direction::North);
}
