use led_matrix::frame::{DmxFrame, Rgb};
use led_matrix::mapping::{DmxAddress, LedMappingEnum, LedMappingTrait};
use led_matrix::matrix_mapping::LedMatrix;
use led_matrix::render::{render_leds, scene_point, ScenePoint};
use led_matrix::strip_mapping::StripMapping;
use led_matrix::topology::{
    chain_fixtures, chained_led_mappings, chained_led_matrices, LedMappingInfo, ScenePos,
};

fn constant_colors(fixtures: &[LedMappingInfo], color: Rgb) -> Vec<Vec<Rgb>> {
    fixtures
        .iter()
        .map(|f| vec![color; f.mapping.get_num_pixels()])
        .collect()
}

#[test]
fn two_chained_matrices_end_to_end() {
    let base = DmxAddress { universe: 0, channel: 44 };
    let pos = vec![ScenePos { x: -8, y: 0 }, ScenePos { x: 8, y: 0 }];
    let fixtures = chained_led_matrices(16, base, &pos);
    assert_eq!(fixtures.len(), 2);
    assert_eq!(fixtures[0].dmx_address, base);
    assert_eq!(fixtures[1].dmx_address, DmxAddress { universe: 1, channel: 302 });
    assert_eq!(fixtures[0].pos_offset, ScenePos { x: -8, y: 0 });
    assert_eq!(fixtures[1].pos_offset, ScenePos { x: 8, y: 0 });

    let color = Rgb { r: 10, g: 20, b: 30 };
    let colors = constant_colors(&fixtures, color);
    let mut frame = DmxFrame::new();
    let led_data = render_leds(&fixtures, &colors, &mut frame);

    let u0 = frame.universe_data(0);
    assert_eq!(&u0[44..47], &[10, 20, 30]);
    assert_eq!(&u0[0..44], &[0u8; 44][..]);
    // 44 + 3 * 256 >= 510: the chain rolls into universe 1
    let u1 = frame.universe_data(1);
    // last pixel of the first matrix: 44 + 3 * 255 == 809 == 510 + 299
    assert_eq!(&u1[299..302], &[10, 20, 30]);
    // first pixel of the second matrix right after it
    assert_eq!(&u1[302..305], &[10, 20, 30]);
    assert!(frame.contains_universe(0));
    assert!(frame.contains_universe(1));
    assert!(frame.contains_universe(2));
    // last pixel of the second matrix: 44 + 3 * 511 == 1577 == 3 * 510 + 47
    assert!(frame.contains_universe(3));
    let u3 = frame.universe_data(3);
    assert_eq!(&u3[47..50], &[10, 20, 30]);
    assert_eq!(&u3[50..], &[0u8; 462][..]);
    assert!(!frame.contains_universe(4));

    assert_eq!(led_data.len(), 2);
    assert_eq!(led_data[0].data.len(), 256);
    assert!(led_data[1].data.iter().all(|c| *c == color));
}

#[test]
fn later_fixture_wins_where_addresses_overlap() {
    let a = LedMappingInfo::new(
        StripMapping::new(2, false).into(),
        ScenePos { x: 0, y: 0 },
        DmxAddress { universe: 0, channel: 0 },
    );
    let b = LedMappingInfo::new(
        StripMapping::new(1, false).into(),
        ScenePos { x: 0, y: 0 },
        DmxAddress { universe: 0, channel: 4 },
    );
    let fixtures = vec![a, b];
    let colors = vec![
        vec![Rgb { r: 1, g: 2, b: 3 }, Rgb { r: 4, g: 5, b: 6 }],
        vec![Rgb { r: 7, g: 8, b: 9 }],
    ];
    let mut frame = DmxFrame::new();
    render_leds(&fixtures, &colors, &mut frame);
    let u0 = frame.universe_data(0);
    assert_eq!(&u0[0..8], &[1, 2, 3, 4, 7, 8, 9, 0]);
}

#[test]
fn empty_frame_has_no_universe() {
    let frame = DmxFrame::new();
    for u in 0..=255u8 {
        assert!(!frame.contains_universe(u));
    }
    assert_eq!(frame.universe_data(7), vec![0u8; 512]);
}

#[test]
fn chained_mappings_follow_each_other() {
    let base = DmxAddress { universe: 0, channel: 36 };
    let chain = chained_led_mappings(base, StripMapping::new(6, false), 3);
    assert_eq!(chain.len(), 3);
    assert_eq!(chain[0].0, base);
    assert_eq!(chain[1].0, DmxAddress { universe: 0, channel: 54 });
    assert_eq!(chain[2].0, DmxAddress { universe: 0, channel: 72 });
    assert!(chained_led_mappings(base, LedMatrix::default(), 0).is_empty());
}

#[test]
fn chaining_is_reproducible() {
    let base = DmxAddress { universe: 0, channel: 48 };
    let pos = vec![ScenePos { x: 0, y: 32 }, ScenePos { x: 0, y: 48 }];
    let first = chained_led_matrices(16, base, &pos);
    let second = chained_led_matrices(16, base, &pos);
    assert_eq!(first.len(), second.len());
    for (x, y) in first.iter().zip(second.iter()) {
        assert_eq!(x.dmx_address, y.dmx_address);
        assert_eq!(x.pos_offset, y.pos_offset);
        assert!(matches!(x.mapping, LedMappingEnum::LedMatrix(m) if m.width == 16));
    }
}

#[test]
fn scene_points_center_each_fixture() {
    let matrix = LedMappingInfo::new(
        LedMatrix::new(16, DmxAddress { universe: 0, channel: 0 }).into(),
        ScenePos { x: -8, y: 0 },
        DmxAddress { universe: 44, channel: 0 },
    );
    // pixel 0 at (0, 0): -7.5 from the centre, then -8 to the scene offset
    assert_eq!(scene_point(&matrix, 0), ScenePoint { x: -31, y: -15 });
    // pixel 16 is at the end of row 1: (15, 1)
    assert_eq!(scene_point(&matrix, 16), ScenePoint { x: 15 - 16, y: 2 - 15 });
    // opposite corners lie symmetric about the scene offset
    let first = scene_point(&matrix, 0);
    // row 15 runs backwards: pixel 240 is at (15, 15)
    let last = scene_point(&matrix, 240);
    assert_eq!(first.x + last.x, 2 * 2 * -8);
    assert_eq!(first.y + last.y, 0);

    let strip = LedMappingInfo::new(
        StripMapping::new(100, true).into(),
        ScenePos { x: 8, y: 32 },
        DmxAddress { universe: 38, channel: 0 },
    );
    // inverted: pixel 0 is at x = 99, spread two scene pixels apart
    assert_eq!(scene_point(&strip, 0), ScenePoint { x: 4 * 99 - 2 * 99 + 16, y: 64 });
    assert_eq!(scene_point(&strip, 99), ScenePoint { x: -2 * 99 + 16, y: 64 });
}

#[test]
fn mixed_fixtures_chain_by_pixel_count() {
    let base = DmxAddress { universe: 0, channel: 36 };
    let fixtures: Vec<(LedMappingEnum, ScenePos)> = vec![
        (StripMapping::new(6, false).into(), ScenePos { x: 16, y: 33 }),
        (LedMatrix::new(16, base).into(), ScenePos { x: 0, y: 0 }),
        (StripMapping::new(100, true).into(), ScenePos { x: 8, y: 32 }),
    ];
    let placed = chain_fixtures(base, &fixtures);
    assert_eq!(placed.len(), 3);
    assert_eq!(placed[0].dmx_address, base);
    // 36 + 3 * 6 == 54
    assert_eq!(placed[1].dmx_address, DmxAddress { universe: 0, channel: 54 });
    // 54 + 3 * 256 == 822 == 510 + 312
    assert_eq!(placed[2].dmx_address, DmxAddress { universe: 1, channel: 312 });
    assert_eq!(placed[2].pos_offset, ScenePos { x: 8, y: 32 });
    assert_eq!(placed[1].mapping.get_num_pixels(), 256);
    assert!(chain_fixtures(base, &Vec::new()).is_empty());
}
