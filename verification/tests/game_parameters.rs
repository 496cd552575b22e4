use player_app::game_parameters::{create_default_game_parameters, GameParameters};
use player_app::math::{Scalar, Vec3};

fn vec3(x: f32, y: f32, z: f32) -> Vec3 {
    Vec3::new(
        Scalar::from_bits(x.to_bits()),
        Scalar::from_bits(y.to_bits()),
        Scalar::from_bits(z.to_bits()),
    )
}

#[test]
fn test_create_default_game_parameters() {
    create_default_game_parameters();
}

#[test]
fn test_initial_player_position() {
    assert_eq!(
        create_default_game_parameters().initial_player_position,
        vec3(0.0, 0.0, 0.0)
    );
}

#[test]
fn test_initial_player_scale() {
    assert_eq!(
        create_default_game_parameters().initial_player_scale,
        vec3(1.0, 1.0, 1.0)
    );
}

#[test]
fn test_use_textire() {
    assert!(!create_default_game_parameters().use_texture);
}

#[test]
fn default_parameters_are_exactly_these() {
    assert_eq!(
        create_default_game_parameters(),
        GameParameters {
            initial_player_position: Vec3::splat(0),
            initial_player_scale: Vec3::splat(0x3f80_0000),
            use_texture: false,
        }
    );
}

#[test]
fn every_field_can_be_overridden() {
    let mut parameters = create_default_game_parameters();
    parameters.initial_player_position = vec3(1.2, 3.4, 5.6);
    parameters.initial_player_scale = vec3(1.1, 2.2, 3.3);
    parameters.use_texture = true;
    assert_eq!(f32::from_bits(parameters.initial_player_position.x.to_bits()), 1.2);
    assert_eq!(f32::from_bits(parameters.initial_player_position.y.to_bits()), 3.4);
    assert_eq!(f32::from_bits(parameters.initial_player_position.z.to_bits()), 5.6);
    assert_eq!(f32::from_bits(parameters.initial_player_scale.x.to_bits()), 1.1);
    assert_eq!(f32::from_bits(parameters.initial_player_scale.y.to_bits()), 2.2);
    assert_eq!(f32::from_bits(parameters.initial_player_scale.z.to_bits()), 3.3);
    assert!(parameters.use_texture);
}
