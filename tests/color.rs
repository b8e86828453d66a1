use party_gif::color::{checked_mix, checked_transform_pixel, grayscale, mix, mix_linear, party_colors, transformPixel};
use party_gif::color::{ColorError, RGB};

#[test]
fn test_grayscale_black() {
    let color = RGB(255, 255, 255);
    let expected = grayscale(&color);
    assert_eq!(expected, RGB(255, 255, 255));
}

#[test]
fn test_grayscale_white() {
    let color = RGB(0, 0, 0);
    let expected = grayscale(&color);
    assert_eq!(expected, RGB(0, 0, 0));
}

#[test]
fn test_grayscale_red() {
    let color = RGB(255, 0, 0);
    let expected = grayscale(&color);
    assert_eq!(expected, RGB(53, 53, 53));
}

#[test]
fn test_grayscale_green() {
    let color = RGB(0, 255, 0);
    let expected = grayscale(&color);
    assert_eq!(expected, RGB(183, 183, 183));
}

#[test]
fn test_grayscale_blue() {
    let color = RGB(0, 0, 255);
    let expected = grayscale(&color);
    assert_eq!(expected, RGB(17, 17, 17));
}

#[test]
fn test_mix_with_opaque() {
    let black = RGB(255, 255, 255);
    let white = RGB(0, 0, 0);
    let opacity = 100;
    let expected = mix(&white, &black, opacity);
    assert_eq!(expected, RGB(255, 255, 255));
}

#[test]
fn test_mix_with_translucent() {
    let black = RGB(255, 255, 255);
    let white = RGB(0, 0, 0);
    let opacity = 0;
    let expected = mix(&white, &black, opacity);
    assert_eq!(expected, RGB(0, 0, 0));
}

#[test]
fn grayscale_mixed_channels() {
    // 21 * 10 + 72 * 20 + 7 * 30 = 1860, truncated to 18.
    assert_eq!(grayscale(&RGB(10, 20, 30)), RGB(18, 18, 18));
    // 21 * 255 + 72 * 141 + 7 * 139 = 16480, truncated to 164.
    assert_eq!(grayscale(&RGB(255, 141, 139)), RGB(164, 164, 164));
}

#[test]
fn grayscale_twice_is_grayscale_once() {
    for c in [RGB(10, 20, 30), RGB(255, 0, 0), RGB(1, 254, 77), RGB(99, 99, 99)] {
        let once = grayscale(&c);
        assert_eq!(grayscale(&once), once);
    }
}

#[test]
fn mix_with_itself_is_unchanged() {
    let c = RGB(12, 200, 99);
    for opacity in [0u8, 1, 60, 99, 100] {
        assert_eq!(mix(&c, &c, opacity), c);
    }
}

#[test]
fn mix_full_and_zero_opacity_literals() {
    assert_eq!(mix(&RGB(255, 255, 255), &RGB(0, 0, 0), 100), RGB(0, 0, 0));
    assert_eq!(mix(&RGB(255, 255, 255), &RGB(0, 0, 0), 0), RGB(255, 255, 255));
}

#[test]
fn mix_below_full_opacity_keeps_base() {
    assert_eq!(mix(&RGB(200, 10, 30), &RGB(0, 255, 0), 99), RGB(200, 10, 30));
    assert_eq!(mix(&RGB(200, 10, 30), &RGB(0, 255, 0), 60), RGB(200, 10, 30));
}

#[test]
fn mix_downward_does_not_wrap() {
    assert_eq!(mix(&RGB(200, 100, 50), &RGB(10, 20, 30), 100), RGB(10, 20, 30));
}

#[test]
fn checked_mix_rejects_opacity_over_one_hundred() {
    let a = RGB(1, 2, 3);
    let b = RGB(4, 5, 6);
    assert_eq!(checked_mix(&a, &b, 101), Err(ColorError::InvalidOpacity));
    assert_eq!(checked_mix(&a, &b, 255), Err(ColorError::InvalidOpacity));
    assert_eq!(checked_mix(&a, &b, 100), Ok(b));
    assert_eq!(checked_mix(&a, &b, 0), Ok(a));
}

#[test]
fn mix_linear_blends_and_rounds_once() {
    // 0 + 255 * 60 / 100 = 153.
    assert_eq!(mix_linear(&RGB(0, 0, 0), &RGB(255, 255, 255), 60), RGB(153, 153, 153));
    // 10 + (11 - 10) * 50 / 100 = 10.5, rounded up to 11; 100 - 0.5 = 99.5, up to 100.
    assert_eq!(mix_linear(&RGB(10, 100, 7), &RGB(11, 99, 7), 50), RGB(11, 100, 7));
    assert_eq!(mix_linear(&RGB(10, 20, 30), &RGB(200, 0, 255), 0), RGB(10, 20, 30));
    assert_eq!(mix_linear(&RGB(10, 20, 30), &RGB(200, 0, 255), 100), RGB(200, 0, 255));
}

#[test]
fn transform_pixel_is_mix_of_grayscale() {
    let party = RGB(255, 141, 139);
    for p in [RGB(255, 0, 0), RGB(0, 255, 0), RGB(3, 7, 11)] {
        for opacity in [0u8, 60, 100] {
            assert_eq!(transformPixel(&p, &party, opacity), mix(&grayscale(&p), &party, opacity));
        }
    }
    assert_eq!(transformPixel(&RGB(255, 0, 0), &party, 60), RGB(53, 53, 53));
    assert_eq!(transformPixel(&RGB(255, 0, 0), &party, 100), party);
}

#[test]
fn party_colors_are_the_ten_in_order() {
    let colors = party_colors();
    assert_eq!(colors.len(), 10);
    assert_eq!(colors[0], RGB(255, 141, 139));
    assert_eq!(colors[4], RGB(139, 181, 254));
    assert_eq!(colors[9], RGB(255, 105, 104));
}

#[test]
fn checked_transform_pixel_checks_opacity() {
    let party = RGB(254, 108, 183);
    let red = RGB(255, 0, 0);
    assert_eq!(checked_transform_pixel(&red, &party, 101), Err(ColorError::InvalidOpacity));
    assert_eq!(checked_transform_pixel(&red, &party, 150), Err(ColorError::InvalidOpacity));
    assert_eq!(checked_transform_pixel(&red, &party, 60), Ok(RGB(53, 53, 53)));
    assert_eq!(checked_transform_pixel(&red, &party, 100), Ok(party));
    for opacity in [0u8, 60, 100, 101, 255] {
        assert_eq!(
            checked_transform_pixel(&red, &party, opacity),
            checked_mix(&grayscale(&red), &party, opacity)
        );
    }
}
