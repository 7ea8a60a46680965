use gradient_images::{
    black, channel_of, Channel, blend_values, blue, circle, floor_sqrt, green, interpolate,
    interpolate_brightness_corrected, pixel_ratio, red, render, standard_images, white,
    with_corners, with_corners_brightness_corrected, yellow, Color, Pattern, Ratio, SIZE,
};

fn sample_corners() -> [Color; 4] {
    [
        Color::new(10, 20, 30),
        Color::new(200, 100, 0),
        Color::new(0, 255, 7),
        Color::new(90, 45, 250),
    ]
}

#[test]
fn interpolate_returns_corner_at_each_corner() {
    let c = sample_corners();
    assert_eq!(interpolate(Ratio::new(0, 0, 511, 511), c), c[0]);
    assert_eq!(interpolate(Ratio::new(511, 0, 511, 511), c), c[1]);
    assert_eq!(interpolate(Ratio::new(0, 511, 511, 511), c), c[2]);
    assert_eq!(interpolate(Ratio::new(511, 511, 511, 511), c), c[3]);
}

#[test]
fn interpolate_uniform_corners_at_midpoint() {
    let a = Color::new(17, 128, 255);
    assert_eq!(interpolate(Ratio::new(1, 1, 2, 2), [a, a, a, a]), a);
    assert_eq!(interpolate(Ratio::new(123, 400, 511, 511), [a, a, a, a]), a);
}

#[test]
fn interpolate_exact_midpoints() {
    let a = Color::new(10, 20, 30);
    let b = Color::new(200, 100, 0);
    // halfway along the top edge, then along the left edge
    assert_eq!(interpolate(Ratio::new(1, 0, 2, 2), [a, b, a, b]), Color::new(105, 60, 15));
    assert_eq!(interpolate(Ratio::new(0, 1, 2, 2), [a, a, b, b]), Color::new(105, 60, 15));
    // centre of four distinct corners: channel sums / 4, truncated
    assert_eq!(
        interpolate(Ratio::new(1, 1, 2, 2), sample_corners()),
        Color::new(75, 105, 71)
    );
}

#[test]
fn interpolate_truncates() {
    let c = [black(), white(), black(), white()];
    // 255 / 3 = 85
    assert_eq!(interpolate(Ratio::new(1, 0, 3, 3), c), Color::new(85, 85, 85));
    // 2 * 255 / 3 = 170
    assert_eq!(interpolate(Ratio::new(2, 0, 3, 3), c), Color::new(170, 170, 170));
}

#[test]
fn corrected_returns_corner_at_each_corner() {
    let c = sample_corners();
    assert_eq!(interpolate_brightness_corrected(Ratio::new(0, 0, 511, 511), c), c[0]);
    assert_eq!(interpolate_brightness_corrected(Ratio::new(511, 0, 511, 511), c), c[1]);
    assert_eq!(interpolate_brightness_corrected(Ratio::new(0, 511, 511, 511), c), c[2]);
    assert_eq!(interpolate_brightness_corrected(Ratio::new(511, 511, 511, 511), c), c[3]);
}

#[test]
fn corrected_uniform_white_and_black() {
    let w = white();
    let k = black();
    for (x, y) in [(0, 0), (1, 1), (37, 400), (511, 3), (511, 511)] {
        let r = Ratio::new(x, y, 511, 511);
        assert_eq!(interpolate_brightness_corrected(r, [w, w, w, w]), w);
        assert_eq!(interpolate_brightness_corrected(r, [k, k, k, k]), k);
    }
}

#[test]
fn corrected_midpoint_is_brighter() {
    let c = [black(), white(), black(), white()];
    // floor(sqrt(65025 / 2)) = floor(sqrt(32512)) = 180
    assert_eq!(
        interpolate_brightness_corrected(Ratio::new(1, 0, 2, 2), c),
        Color::new(180, 180, 180)
    );
    assert_eq!(interpolate(Ratio::new(1, 0, 2, 2), c), Color::new(127, 127, 127));
}

#[test]
fn floor_sqrt_values() {
    assert_eq!(floor_sqrt(0), 0);
    assert_eq!(floor_sqrt(1), 1);
    assert_eq!(floor_sqrt(2), 1);
    assert_eq!(floor_sqrt(3), 1);
    assert_eq!(floor_sqrt(4), 2);
    assert_eq!(floor_sqrt(32512), 180);
    assert_eq!(floor_sqrt(65024), 254);
    assert_eq!(floor_sqrt(65025), 255);
    assert_eq!(floor_sqrt(u32::MAX), 65535);
}

#[test]
fn blend_values_exact() {
    assert_eq!(blend_values([0, 100, 200, 300], Ratio::new(1, 1, 2, 2)), 150);
    assert_eq!(blend_values([0, 100, 200, 300], Ratio::new(1, 0, 4, 4)), 25);
    assert_eq!(blend_values([u32::MAX; 4], Ratio::new(3, 5, 7, 9)), u32::MAX);
}

#[test]
fn circle_centre_is_inside() {
    let (r, k) = (red(), black());
    assert_eq!(circle(256, r, k, 512, 512, 255, 255), r);
    assert_eq!(circle(256, r, k, 512, 512, 256, 256), r);
    assert_eq!(circle(1, r, k, 512, 512, 255, 256), r);
    assert_eq!(circle(1, r, k, 511, 511, 255, 255), r);
}

#[test]
fn circle_corners_are_outside() {
    let (r, k) = (red(), black());
    for radius in [0, 1, 100, 255] {
        for (x, y) in [(0, 0), (511, 0), (0, 511), (511, 511)] {
            assert_eq!(circle(radius, r, k, 512, 512, x, y), k);
        }
    }
}

#[test]
fn circle_edge() {
    let (r, k) = (red(), black());
    // doubled offsets (-1, -201): 1 + 40401 > 200^2 = 40000
    assert_eq!(circle(100, r, k, 512, 512, 255, 155), k);
    // doubled offsets (-1, -199): 1 + 39601 <= 40000
    assert_eq!(circle(100, r, k, 512, 512, 255, 156), r);
}

#[test]
fn pixel_ratio_spans_grid() {
    assert_eq!(pixel_ratio(0, 0, 512, 512), Ratio::new(0, 0, 511, 511));
    assert_eq!(pixel_ratio(511, 7, 512, 300), Ratio::new(511, 7, 511, 299));
}

#[test]
fn with_corners_pixels() {
    let c = [red(), yellow(), blue(), green()];
    assert_eq!(with_corners(c, 512, 512, 0, 0), red());
    assert_eq!(with_corners(c, 512, 512, 511, 0), yellow());
    assert_eq!(with_corners(c, 512, 512, 0, 511), blue());
    assert_eq!(with_corners(c, 512, 512, 511, 511), green());
    assert_eq!(with_corners(c, 3, 3, 1, 0), Color::new(255, 127, 0));
    assert_eq!(with_corners_brightness_corrected(c, 3, 3, 1, 0), Color::new(255, 180, 0));
    assert_eq!(with_corners_brightness_corrected(c, 512, 512, 511, 511), green());
}

#[test]
fn render_small_gradient() {
    let c = [red(), yellow(), blue(), green()];
    let buf = render(&Pattern::Corners { corners: c }, 2, 2);
    assert_eq!(buf, vec![255, 0, 0, 255, 255, 0, 0, 0, 255, 0, 255, 0]);
}

#[test]
fn render_small_circle() {
    let p = Pattern::Circle { radius: 1, inside: white(), outside: black() };
    let buf = render(&p, 3, 1);
    // doubled offsets -2, 0, 2 against a doubled radius of 2
    assert_eq!(buf, vec![255; 9]);
    let buf = render(&p, 5, 1);
    assert_eq!(buf, vec![0, 0, 0, 255, 255, 255, 255, 255, 255, 255, 255, 255, 0, 0, 0]);
}

#[test]
fn standard_images_are_fixed() {
    let v = standard_images();
    let names: Vec<&str> = v.iter().map(|s| s.name).collect();
    assert_eq!(
        names,
        vec!["circle", "rybg", "r01g", "0yb1", "rybg_corrected", "r01g_corrected", "0yb1_corrected"]
    );
    match v[0].pattern {
        Pattern::Circle { radius, inside, outside } => {
            assert_eq!(radius, 256);
            assert_eq!(inside, red());
            assert_eq!(outside, black());
        }
        _ => panic!("the first image is the circle"),
    }
    match v[2].pattern {
        Pattern::Corners { corners } => assert_eq!(corners, [red(), black(), white(), green()]),
        _ => panic!("the third image is a plain gradient"),
    }
    match v[6].pattern {
        Pattern::CornersCorrected { corners } => {
            assert_eq!(corners, [black(), yellow(), blue(), white()])
        }
        _ => panic!("the last image is a corrected gradient"),
    }
}

#[test]
fn standard_images_render_full_size_and_repeatably() {
    for spec in standard_images() {
        let a = render(&spec.pattern, SIZE, SIZE);
        assert_eq!(a.len(), 3 * 512 * 512);
        let b = render(&spec.pattern, SIZE, SIZE);
        assert!(a == b);
    }
}

#[test]
fn channel_of_reads_each_channel() {
    let c = Color::new(1, 2, 3);
    assert_eq!(channel_of(c, Channel::Red), 1);
    assert_eq!(channel_of(c, Channel::Green), 2);
    assert_eq!(channel_of(c, Channel::Blue), 3);
}
