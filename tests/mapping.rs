use led_matrix::mapping::{addressable, DmxAddress, LedMappingEnum, LedMappingTrait, UPos, CHANNELS_PER_UNIVERSE};
use led_matrix::matrix_mapping::LedMatrix;
use led_matrix::strip_mapping::StripMapping;

fn addr(universe: u8, channel: usize) -> DmxAddress {
    DmxAddress { universe, channel }
}

#[test]
fn pixel_offset_is_three_channels_per_pixel() {
    assert_eq!(addr(0, 44).pixel_offset(0), addr(0, 44));
    assert_eq!(addr(0, 44).pixel_offset(1), addr(0, 47));
    assert_eq!(addr(2, 0).pixel_offset(100), addr(2, 300));
}

#[test]
fn pixel_offset_rolls_into_next_universe() {
    // 0 + 3 * 170 == 510: exactly at the boundary
    assert_eq!(addr(0, 0).pixel_offset(169), addr(0, 507));
    assert_eq!(addr(0, 0).pixel_offset(170), addr(1, 0));
    // 44 + 3 * 256 == 812 == 510 + 302
    assert_eq!(addr(0, 44).pixel_offset(256), addr(1, 302));
    assert_eq!(addr(3, 509).pixel_offset(1), addr(4, 2));
}

#[test]
fn channel_stays_below_capacity() {
    for base_channel in [0usize, 1, 2, 44, 300, 509] {
        for i in 0..2000usize {
            let a = addr(0, base_channel).pixel_offset(i);
            assert!(a.channel < CHANNELS_PER_UNIVERSE);
            assert!(a.channel + 3 <= 512);
        }
    }
}

#[test]
fn chaining_two_fixtures_equals_one_long_fixture() {
    let base = addr(0, 44);
    for (n1, n2) in [(256usize, 256usize), (6, 100), (170, 0), (0, 5), (100, 377)] {
        let next = base.pixel_offset(n1);
        for i in 0..n2 {
            assert_eq!(next.pixel_offset(i), base.pixel_offset(n1 + i));
        }
        assert_eq!(next.pixel_offset(n2), base.pixel_offset(n1 + n2));
    }
}

#[test]
fn addressable_up_to_the_last_universe() {
    // 3 * 339 == 1017 < 2 * 510: still universe 255
    assert!(addressable(addr(254, 0), 339));
    assert!(!addressable(addr(254, 0), 340));
    assert!(addressable(addr(255, 0), 169));
    assert!(!addressable(addr(255, 0), 170));
    assert!(!addressable(addr(255, 509), 1));
    assert!(addressable(addr(0, 44), 1000));
    assert!(!addressable(addr(0, 0), usize::MAX / 3 + 1));
    assert!(!addressable(addr(0, 10), usize::MAX / 3));
}

#[test]
fn address_from_channel_and_universe() {
    let a: DmxAddress = (44usize, 3u8).into();
    assert_eq!(a, addr(3, 44));
}

#[test]
fn matrix_is_serpentine() {
    let m = LedMatrix::new(4, addr(0, 0));
    assert_eq!(m.get_num_pixels(), 16);
    assert_eq!(m.get_size(), UPos { x: 4, y: 4 });
    assert_eq!(m.get_pos(0), UPos { x: 0, y: 0 });
    assert_eq!(m.get_pos(3), UPos { x: 3, y: 0 });
    assert_eq!(m.get_pos(4), UPos { x: 3, y: 1 });
    assert_eq!(m.get_pos(7), UPos { x: 0, y: 1 });
    assert_eq!(m.get_pos(8), UPos { x: 0, y: 2 });
    assert_eq!(m.get_pos(15), UPos { x: 0, y: 3 });
}

#[test]
fn matrix_positions_for_all_widths() {
    for w in 1..20usize {
        let m = LedMatrix::new(w, addr(0, 0));
        for i in 0..w * w {
            let p = m.get_pos(i);
            assert_eq!(p.y as usize, i / w);
            if (i / w) % 2 == 0 {
                assert_eq!(p.x as usize, i % w);
            } else {
                assert_eq!(p.x as usize, w - 1 - i % w);
            }
        }
    }
}

#[test]
fn default_matrix_is_sixteen_wide() {
    let m = LedMatrix::default();
    assert_eq!(m.width, 16);
    assert_eq!(m.get_num_pixels(), 256);
    assert_eq!(m.start_address, addr(0, 0));
}

#[test]
fn strip_positions() {
    let s = StripMapping::new(6, false);
    assert_eq!(s.get_num_pixels(), 6);
    assert_eq!(s.get_size(), UPos { x: 6, y: 1 });
    assert_eq!(s.get_pos(0), UPos { x: 0, y: 0 });
    assert_eq!(s.get_pos(5), UPos { x: 5, y: 0 });
    let r = StripMapping::new(100, true);
    assert_eq!(r.get_pos(0), UPos { x: 99, y: 0 });
    assert_eq!(r.get_pos(99), UPos { x: 0, y: 0 });
    assert_eq!(StripMapping::default().get_num_pixels(), 16);
}

#[test]
fn enum_dispatches_to_its_shape() {
    let m: LedMappingEnum = LedMatrix::new(16, addr(0, 0)).into();
    let s: LedMappingEnum = StripMapping::new(100, true).into();
    assert_eq!(m.get_num_pixels(), 256);
    assert_eq!(m.get_pos(16), UPos { x: 15, y: 1 });
    assert_eq!(s.get_num_pixels(), 100);
    assert_eq!(s.get_size(), UPos { x: 100, y: 1 });
    assert_eq!(s.get_pos(1), UPos { x: 98, y: 0 });
}
