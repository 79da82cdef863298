use vmnl::color::{NamedColor, Rgba};

#[test]
fn rgba_new_stores_components() {
    assert_eq!(
        Rgba::new(1, 2, 3, 4),
        Rgba {
            r: 1,
            g: 2,
            b: 3,
            a: 4
        }
    );
}

#[test]
fn rgba_rgb_defaults_alpha_to_opaque() {
    assert_eq!(
        Rgba::rgb(1, 2, 3),
        Rgba {
            r: 1,
            g: 2,
            b: 3,
            a: 255
        }
    );
}

#[test]
fn rgba_constructor_matches_new() {
    assert_eq!(Rgba::rgba(1, 2, 3, 4), Rgba::new(1, 2, 3, 4));
}

#[test]
fn rgba_from_rgb_array_defaults_alpha_to_opaque() {
    let color: Rgba = [1, 2, 3].into();
    assert_eq!(color, Rgba::rgb(1, 2, 3));
}

#[test]
fn rgba_from_rgba_array_stores_components() {
    let color: Rgba = [1, 2, 3, 4].into();
    assert_eq!(color, Rgba::rgba(1, 2, 3, 4));
}

#[test]
fn rgba_named_constants_store_expected_components() {
    assert_eq!(Rgba::named(NamedColor::Red), Rgba::rgb(255, 0, 0));
    assert_eq!(Rgba::named(NamedColor::Green), Rgba::rgb(0, 255, 0));
    assert_eq!(Rgba::named(NamedColor::Blue), Rgba::rgb(0, 0, 255));
    assert_eq!(Rgba::named(NamedColor::WebGreen), Rgba::rgb(0, 128, 0));
    assert_eq!(Rgba::named(NamedColor::RebeccaPurple), Rgba::rgb(102, 51, 153));
    assert_eq!(Rgba::named(NamedColor::Transparent), Rgba::rgba(0, 0, 0, 0));
}

#[test]
fn rgba_default_is_transparent_black() {
    assert_eq!(Rgba::default(), Rgba::rgba(0, 0, 0, 0));
}

#[test]
fn rgba_subtraction_saturates_each_component() {
    assert_eq!(Rgba::new(10, 200, 5, 255) - Rgba::new(20, 100, 5, 1), Rgba::new(0, 100, 0, 254));
}

#[test]
fn rgba_scaling_multiplies_by_a_fraction_of_255() {
    assert_eq!(Rgba::new(255, 200, 0, 51) * 128, Rgba::new(128, 100, 0, 25));
    assert_eq!(Rgba::new(255, 200, 10, 1) * 255, Rgba::new(255, 200, 10, 1));
}

#[test]
fn rgba_compound_assignment_saturates() {
    let mut color = Rgba::new(250, 10, 0, 128);
    color += Rgba::new(10, 10, 0, 128);
    assert_eq!(color, Rgba::new(255, 20, 0, 255));
    color -= Rgba::new(0, 30, 1, 0);
    assert_eq!(color, Rgba::new(255, 0, 0, 255));
}

#[test]
fn rgba_scaled_u8_rounds_down() {
    assert_eq!(Rgba::scaled_u8(100, 2), 0);
    assert_eq!(Rgba::scaled_u8(255, 255), 255);
    assert_eq!(Rgba::scaled_u8(200, 128), 100);
}

#[test]
fn rgba_orders_by_red_then_green_blue_alpha() {
    assert!(Rgba::new(1, 255, 255, 255) < Rgba::new(2, 0, 0, 0));
    assert!(Rgba::new(1, 2, 3, 4) < Rgba::new(1, 2, 3, 5));
}
