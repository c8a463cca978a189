use vstd::prelude::*;

use crate::frame::{apply_writes, DmxFrame, Rgb};
use crate::mapping::{
    absolute_channel, lemma_chain_composition, lemma_channel_within_universe, offset_in_range,
    pixel_address, DmxAddress, LedIndex, LedMappingEnum, LedMappingTrait, CHANNELS_PER_UNIVERSE,
    UNIVERSE_SIZE,
};
use crate::topology::LedMappingInfo;

verus! {

/// LED data of one fixture in pixel order, for preview.
#[derive(Debug, Clone)]
pub struct LedData {
    pub info: LedMappingInfo,
    pub data: Vec<Rgb>,
}

/// A point of the scene in half-pixel units: its coordinates are twice the
/// scene coordinates, so that the centre of a fixture with an even number of
/// pixels across is a whole number.
#[derive(Debug, Clone, Copy, PartialEq, Eq)]
pub struct ScenePoint {
    pub x: i64,
    pub y: i64,
}

/// Scene pixels per fixture pixel: a strip's pixels are spread twice as far
/// apart as a matrix's.
pub open spec fn pixel_scale(mapping: LedMappingEnum) -> int {
    match mapping {
        LedMappingEnum::LedMatrix(_) => 1,
        LedMappingEnum::StripMapping(_) => 2,
    }
}

/// One coordinate of a pixel in half-pixel units: the scaled local coordinate,
/// moved so that the fixture's `size` pixels are centred on `offset`.
pub open spec fn scene_coord(local: int, size: int, scale: int, offset: int) -> int {
    2 * scale * local - scale * (size - 1) + 2 * offset
}

/// Where pixel `index` of a placed fixture lies in the scene.
pub open spec fn scene_point_spec(info: LedMappingInfo, index: int) -> ScenePoint {
    let p = info.mapping.pos(index);
    let size = info.mapping.size();
    let scale = pixel_scale(info.mapping);
    ScenePoint {
        x: scene_coord(p.x as int, size.x as int, scale, info.pos_offset.x as int) as i64,
        y: scene_coord(p.y as int, size.y as int, scale, info.pos_offset.y as int) as i64,
    }
}

/// The scene position of pixel `index` of a placed fixture.
pub fn scene_point(info: &LedMappingInfo, index: LedIndex) -> (r: ScenePoint)
    requires
        info.mapping.wf(),
        index < info.mapping.num_pixels(),
    ensures
        r == scene_point_spec(*info, index as int),
        r.x == scene_coord(
            info.mapping.pos(index as int).x as int,
            info.mapping.size().x as int,
            pixel_scale(info.mapping),
            info.pos_offset.x as int,
        ),
        r.y == scene_coord(
            info.mapping.pos(index as int).y as int,
            info.mapping.size().y as int,
            pixel_scale(info.mapping),
            info.pos_offset.y as int,
        ),
{
    let p = info.mapping.get_pos(index);
    let size = info.mapping.get_size();
    let scale: i64 = match info.mapping {
        LedMappingEnum::LedMatrix(_) => 1,
        LedMappingEnum::StripMapping(_) => 2,
    };
    ScenePoint {
        x: coord(p.x, size.x, scale, info.pos_offset.x),
        y: coord(p.y, size.y, scale, info.pos_offset.y),
    }
}

fn coord(local: u32, size: u32, scale: i64, offset: i32) -> (r: i64)
    requires
        scale == 1 || scale == 2,
    ensures
        r == scene_coord(local as int, size as int, scale as int, offset as int),
{
    let l = local as i64;
    let s = size as i64;
    let o = offset as i64;
    if scale == 1 {
        2 * l - (s - 1) + 2 * o
    } else {
        4 * l - 2 * (s - 1) + 2 * o
    }
}

/// The pixel writes of one fixture: pixel `i` gets `colors[i]` at its address.
pub open spec fn fixture_writes(info: LedMappingInfo, colors: Seq<Rgb>) -> Seq<(DmxAddress, Rgb)> {
    Seq::new(colors.len(), |i: int| (pixel_address(info.dmx_address, i), colors[i]))
}

/// The pixel writes of a whole frame: fixture after fixture, each in pixel order.
pub open spec fn frame_writes(fixtures: Seq<LedMappingInfo>, colors: Seq<Seq<Rgb>>) -> Seq<
    (DmxAddress, Rgb),
>
    decreases fixtures.len(),
{
    if fixtures.len() == 0 {
        Seq::empty()
    } else {
        frame_writes(fixtures.drop_last(), colors.drop_last()) + fixture_writes(
            fixtures.last(),
            colors.last(),
        )
    }
}

/// The colors of each fixture, as sequences.
pub open spec fn colors_view(colors: Seq<Vec<Rgb>>) -> Seq<Seq<Rgb>> {
    colors.map_values(|v: Vec<Rgb>| v@)
}

/// A fixture and its colors are fit to be rendered: the fixture is in range,
/// there is one color per pixel and every pixel has an address.
pub open spec fn renderable(info: LedMappingInfo, colors: Seq<Rgb>) -> bool {
    &&& info.mapping.wf()
    &&& colors.len() == info.mapping.num_pixels()
    &&& forall|i: int| 0 <= i < colors.len() ==> #[trigger] offset_in_range(info.dmx_address, i)
}

proof fn lemma_apply_push(frame: Map<int, Seq<u8>>, writes: Seq<(DmxAddress, Rgb)>, w: (DmxAddress, Rgb))
    ensures
        apply_writes(frame, writes.push(w)) == crate::frame::write_pixel_spec(
            apply_writes(frame, writes),
            w.0,
            w.1,
        ),
{
    assert(writes.push(w).drop_last() =~= writes);
}

/// Writes the colors of every pixel of every fixture, in order, into the
/// universe buffers, and returns the colors of each fixture for preview.
pub fn render_leds(matrices: &Vec<LedMappingInfo>, colors: &Vec<Vec<Rgb>>, dmx_data: &mut DmxFrame) -> (r: Vec<
    LedData,
>)
    requires
        old(dmx_data).wf(),
        colors.len() == matrices.len(),
        forall|f: int| 0 <= f < matrices.len() ==> renderable(#[trigger] matrices[f], colors[f]@),
    ensures
        final(dmx_data).wf(),
        final(dmx_data)@ == apply_writes(
            old(dmx_data)@,
            frame_writes(matrices@, colors_view(colors@)),
        ),
        r.len() == matrices.len(),
        forall|f: int|
            0 <= f < matrices.len() ==> (#[trigger] r[f]).info == matrices[f] && r[f].data@
                == colors[f]@,
{
    let ghost start = dmx_data@;
    let ghost cs = colors_view(colors@);
    let mut led_data: Vec<LedData> = Vec::with_capacity(matrices.len());
    let mut f: usize = 0;
    while f < matrices.len()
        invariant
            dmx_data.wf(),
            colors.len() == matrices.len(),
            cs == colors_view(colors@),
            forall|g: int| 0 <= g < matrices.len() ==> renderable(#[trigger] matrices[g], colors[g]@),
            f <= matrices.len(),
            dmx_data@ == apply_writes(start, frame_writes(matrices@.take(f as int), cs.take(f as int))),
            led_data.len() == f,
            forall|g: int|
                0 <= g < f ==> (#[trigger] led_data[g]).info == matrices[g] && led_data[g].data@
                    == colors[g]@,
        decreases matrices.len() - f,
    {
        let fixture = &matrices[f];
        let fixture_colors = &colors[f];
        let n = fixture.mapping.get_num_pixels();
        let ghost done = frame_writes(matrices@.take(f as int), cs.take(f as int));
        let mut pixels: Vec<Rgb> = Vec::with_capacity(n);
        let mut i: usize = 0;
        while i < n
            invariant
                dmx_data.wf(),
                renderable(*fixture, fixture_colors@),
                n == fixture_colors.len(),
                i <= n,
                pixels@ == fixture_colors@.take(i as int),
                dmx_data@ == apply_writes(
                    start,
                    done + fixture_writes(*fixture, fixture_colors@.take(i as int)),
                ),
            decreases n - i,
        {
            assert(offset_in_range(fixture.dmx_address, i as int));
            let dmx_target = fixture.dmx_address.pixel_offset(i);
            proof {
                lemma_channel_within_universe(fixture.dmx_address, i as int);
            }
            let color = fixture_colors[i];
            dmx_data.write_pixel(dmx_target, color);
            pixels.push(color);
            proof {
                let before = done + fixture_writes(*fixture, fixture_colors@.take(i as int));
                let w = (dmx_target, color);
                lemma_apply_push(start, before, w);
                assert(done + fixture_writes(*fixture, fixture_colors@.take(i + 1)) =~= before.push(w));
                assert(pixels@ =~= fixture_colors@.take(i + 1));
            }
            i = i + 1;
        }
        proof {
            assert(fixture_colors@.take(n as int) =~= fixture_colors@);
            assert(pixels@ =~= fixture_colors@);
            let fs = matrices@.take(f + 1);
            let cs1 = cs.take(f + 1);
            assert(fs.drop_last() =~= matrices@.take(f as int));
            assert(cs1.drop_last() =~= cs.take(f as int));
            assert(cs1.last() == fixture_colors@);
        }
        led_data.push(LedData { info: *fixture, data: pixels });
        f = f + 1;
    }
    proof {
        assert(matrices@.take(matrices.len() as int) =~= matrices@);
        assert(cs.take(matrices.len() as int) =~= cs);
    }
    led_data
}

/// Two pixel writes share no byte: they go to different universes, or their
/// three channels do not meet.
pub open spec fn disjoint_writes(a: (DmxAddress, Rgb), b: (DmxAddress, Rgb)) -> bool {
    a.0.universe != b.0.universe || a.0.channel + 3 <= b.0.channel || b.0.channel + 3
        <= a.0.channel
}

/// Every buffer holds a whole universe.
pub open spec fn full_buffers(frame: Map<int, Seq<u8>>) -> bool {
    forall|u: int| #[trigger] frame.contains_key(u) ==> frame[u].len() == UNIVERSE_SIZE
}

/// The universe of `w` holds `w`'s color in its three channels.
pub open spec fn shows(frame: Map<int, Seq<u8>>, w: (DmxAddress, Rgb)) -> bool {
    let u = w.0.universe as int;
    let c = w.0.channel as int;
    &&& frame.contains_key(u)
    &&& frame[u][c] == w.1.r
    &&& frame[u][c + 1] == w.1.g
    &&& frame[u][c + 2] == w.1.b
}

proof fn lemma_writes_keep_full(frame: Map<int, Seq<u8>>, writes: Seq<(DmxAddress, Rgb)>)
    requires
        full_buffers(frame),
        forall|j: int| 0 <= j < writes.len() ==> (#[trigger] writes[j]).0.wf(),
    ensures
        full_buffers(apply_writes(frame, writes)),
    decreases writes.len(),
{
    if writes.len() > 0 {
        assert forall|j: int| 0 <= j < writes.drop_last().len() implies (#[trigger] writes.drop_last()[j]).0.wf() by {
            assert(writes.drop_last()[j] == writes[j]);
        }
        lemma_writes_keep_full(frame, writes.drop_last());
        let before = apply_writes(frame, writes.drop_last());
        let after = apply_writes(frame, writes);
        let w = writes.last();
        assert(w.0.wf());
        assert(after == crate::frame::write_pixel_spec(before, w.0, w.1));
        assert forall|u: int| #[trigger] after.contains_key(u) implies after[u].len()
            == UNIVERSE_SIZE by {
            if u != w.0.universe as int {
                assert(before.contains_key(u));
            } else if before.contains_key(u) {
                assert(before[u].len() == UNIVERSE_SIZE);
            } else {
                assert(crate::frame::blank_universe().len() == UNIVERSE_SIZE);
            }
        }
    }
}

/// A pixel write that no later write shares a byte with survives: after all
/// writes are applied, its universe holds its color in its three channels.
pub proof fn lemma_last_write_wins(
    frame: Map<int, Seq<u8>>,
    writes: Seq<(DmxAddress, Rgb)>,
    k: int,
)
    requires
        full_buffers(frame),
        0 <= k < writes.len(),
        forall|j: int| 0 <= j < writes.len() ==> (#[trigger] writes[j]).0.wf(),
        forall|j: int| k < j < writes.len() ==> disjoint_writes(#[trigger] writes[j], writes[k]),
    ensures
        shows(apply_writes(frame, writes), writes[k]),
    decreases writes.len(),
{
    let rest = writes.drop_last();
    assert forall|j: int| 0 <= j < rest.len() implies (#[trigger] rest[j]).0.wf() by {
        assert(rest[j] == writes[j]);
    }
    lemma_writes_keep_full(frame, rest);
    let before = apply_writes(frame, rest);
    let w = writes.last();
    if k < writes.len() - 1 {
        assert forall|j: int| k < j < rest.len() implies disjoint_writes(#[trigger] rest[j], rest[k]) by {
            assert(rest[j] == writes[j]);
        }
        lemma_last_write_wins(frame, rest, k);
        assert(disjoint_writes(writes[writes.len() - 1], writes[k]));
        assert(rest[k] == writes[k]);
    } else {
        assert(w.0.wf());
        let u = w.0.universe as int;
        if before.contains_key(u) {
            assert(before[u].len() == UNIVERSE_SIZE);
        }
    }
}

/// The pixels of one fixture never share a byte: their absolute channels lie
/// three apart or more, so within a universe their channels do too.
pub proof fn lemma_fixture_pixels_disjoint(base: DmxAddress, i: int, j: int)
    requires
        0 <= i < j,
        offset_in_range(base, j),
    ensures
        offset_in_range(base, i),
        disjoint_writes(
            (pixel_address(base, i), Rgb { r: 0, g: 0, b: 0 }),
            (pixel_address(base, j), Rgb { r: 0, g: 0, b: 0 }),
        ),
{
    let n = CHANNELS_PER_UNIVERSE as int;
    let ai = absolute_channel(base, i);
    let aj = absolute_channel(base, j);
    vstd::arithmetic::div_mod::lemma_div_is_ordered(ai, aj, n);
    vstd::arithmetic::div_mod::lemma_fundamental_div_mod(ai, n);
    vstd::arithmetic::div_mod::lemma_fundamental_div_mod(aj, n);
    vstd::arithmetic::div_mod::lemma_mod_bound(ai, n);
    vstd::arithmetic::div_mod::lemma_mod_bound(aj, n);
}

/// Rendering a single fixture leaves every one of its pixels showing its own
/// color: in the universe of its address, its three channels hold its red,
/// green and blue.
pub proof fn lemma_fixture_shows_colors(
    frame: Map<int, Seq<u8>>,
    info: LedMappingInfo,
    colors: Seq<Rgb>,
    i: int,
)
    requires
        full_buffers(frame),
        renderable(info, colors),
        0 <= i < colors.len(),
    ensures
        shows(
            apply_writes(frame, frame_writes(seq![info], seq![colors])),
            (pixel_address(info.dmx_address, i), colors[i]),
        ),
{
    let writes = frame_writes(seq![info], seq![colors]);
    assert(seq![info].drop_last() =~= Seq::<LedMappingInfo>::empty());
    assert(seq![colors].drop_last() =~= Seq::<Seq<Rgb>>::empty());
    assert(frame_writes(Seq::<LedMappingInfo>::empty(), Seq::<Seq<Rgb>>::empty()) =~= Seq::<
        (DmxAddress, Rgb),
    >::empty());
    assert(seq![info].last() == info);
    assert(seq![colors].last() == colors);
    assert(writes =~= fixture_writes(info, colors));
    assert forall|j: int| 0 <= j < writes.len() implies (#[trigger] writes[j]).0.wf() by {
        assert(offset_in_range(info.dmx_address, j));
        lemma_channel_within_universe(info.dmx_address, j);
    }
    assert forall|j: int| i < j < writes.len() implies disjoint_writes(
        #[trigger] writes[j],
        writes[i],
    ) by {
        assert(offset_in_range(info.dmx_address, j));
        lemma_fixture_pixels_disjoint(info.dmx_address, i, j);
    }
    lemma_last_write_wins(frame, writes, i);
}

/// Two fixtures chained one after the other share no byte either: after both
/// are rendered, every pixel of the pair, counted from the first fixture's
/// address, shows its own color, the second fixture's starting right after
/// the first one's last channel.
pub proof fn lemma_chain_shows_colors(
    frame: Map<int, Seq<u8>>,
    first: LedMappingInfo,
    first_colors: Seq<Rgb>,
    second: LedMappingInfo,
    second_colors: Seq<Rgb>,
    t: int,
)
    requires
        full_buffers(frame),
        renderable(first, first_colors),
        renderable(second, second_colors),
        second.dmx_address == pixel_address(first.dmx_address, first_colors.len() as int),
        0 <= t < first_colors.len() + second_colors.len(),
        offset_in_range(first.dmx_address, first_colors.len() + second_colors.len() - 1),
    ensures
        shows(
            apply_writes(
                frame,
                frame_writes(seq![first, second], seq![first_colors, second_colors]),
            ),
            (
                pixel_address(first.dmx_address, t),
                if t < first_colors.len() {
                    first_colors[t]
                } else {
                    second_colors[t - first_colors.len()]
                },
            ),
        ),
{
    let base = first.dmx_address;
    let n1 = first_colors.len() as int;
    let last = first_colors.len() + second_colors.len() - 1;
    let fs = seq![first, second];
    let cs = seq![first_colors, second_colors];
    let writes = frame_writes(fs, cs);
    assert(fs.drop_last() =~= seq![first]);
    assert(cs.drop_last() =~= seq![first_colors]);
    assert(seq![first].drop_last() =~= Seq::<LedMappingInfo>::empty());
    assert(seq![first_colors].drop_last() =~= Seq::<Seq<Rgb>>::empty());
    assert(frame_writes(Seq::<LedMappingInfo>::empty(), Seq::<Seq<Rgb>>::empty()) =~= Seq::<
        (DmxAddress, Rgb),
    >::empty());
    assert(frame_writes(seq![first], seq![first_colors]) =~= fixture_writes(first, first_colors));
    assert(writes =~= fixture_writes(first, first_colors) + fixture_writes(second, second_colors));
    assert forall|j: int| 0 <= j < writes.len() implies {
        &&& offset_in_range(base, j)
        &&& (#[trigger] writes[j]).0 == pixel_address(base, j)
    } by {
        lemma_chain_composition(base, j, last - j);
        if j >= n1 {
            lemma_chain_composition(base, n1, j - n1);
        }
    }
    assert forall|j: int| 0 <= j < writes.len() implies (#[trigger] writes[j]).0.wf() by {
        assert(offset_in_range(base, j));
        lemma_channel_within_universe(base, j);
    }
    assert forall|j: int| t < j < writes.len() implies disjoint_writes(
        #[trigger] writes[j],
        writes[t],
    ) by {
        assert(offset_in_range(base, j));
        lemma_fixture_pixels_disjoint(base, t, j);
    }
    lemma_last_write_wins(frame, writes, t);
}

} // verus!
