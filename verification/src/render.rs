//! Path-tracing integrator and the multi-sample parallel image estimator.

use vstd::prelude::*;

use rayon::iter::IntoParallelIterator;
use rayon::iter::ParallelIterator;

use crate::camera::Camera;
use crate::fixed::Fx;
use crate::fixed::MAX_RAW;
use crate::hittable::get_closest_hit_in_range;
use crate::hittable::spec_closest_hit;
use crate::hittable::spec_scatter;
use crate::hittable::spec_world_hits;
use crate::hittable::Object;
use crate::hittable::World;
use crate::camera::spec_get_ray;
use crate::rand::get_random_offset;
use crate::rand::spec_disk_sample;
use crate::rand::spec_next_state;
use crate::rand::spec_offset_fx;
use crate::rand::RandomSource;
use crate::rand::MAX_REJECTION_TRIES;
use crate::ray::Ray;
use crate::vec3::spec_unit;
use crate::vec3::spec_vadd;
use crate::vec3::spec_vdiv;
use crate::vec3::spec_vmul;
use crate::vec3::spec_vscale;
use crate::vec3::Color;
use crate::vec3::Vec3;

verus! {

/// Raw lower bound of the valid hit range: a small positive parameter so a
/// scattered ray cannot re-hit the surface it just left.
pub const T_MIN_RAW: i64 = 7;

/// Raw fixed-point value of the scale 255.999 applied before truncating a
/// color component to an integer level.
pub const PPM_SCALE_RAW: i64 = 16777150;

/// The background: a vertical gradient from white at the horizon to
/// sky-blue at the zenith, interpolated by the normalized direction's
/// y-component. This models ambient sky light, the only emissive source.
pub open spec fn spec_blue_gradient(r: Ray) -> Color {
    let u = spec_unit(r.d);
    let t = Fx::spec_div(Fx::spec_add(u.y, Fx { raw: 65536 }), Fx::spec_from_int(2));
    spec_vadd(
        spec_vscale(
            Vec3 { x: Fx { raw: 65536 }, y: Fx { raw: 65536 }, z: Fx { raw: 65536 } },
            Fx::spec_sub(Fx { raw: 65536 }, t),
        ),
        spec_vscale(Vec3 { x: Fx { raw: 32768 }, y: Fx { raw: 45875 }, z: Fx { raw: 65536 } }, t),
    )
}

/// The sky color for a ray that missed every object.
pub fn ray_color_blue_gradient(r: Ray) -> (c: Color)
    requires
        r.wf(),
    ensures
        c == spec_blue_gradient(r),
        c.wf(),
{
    let u = r.d.unit();
    let t = u.y.add(Fx { raw: 65536 }).div(Fx::from_int(2));
    Vec3 { x: Fx { raw: 65536 }, y: Fx { raw: 65536 }, z: Fx { raw: 65536 } }.scale(
        Fx { raw: 65536 }.sub(t),
    ).add(Vec3 { x: Fx { raw: 32768 }, y: Fx { raw: 45875 }, z: Fx { raw: 65536 } }.scale(t))
}

/// The radiance estimate for a ray through a fixed set of objects, as a
/// function of the random-source state: black at the recursion floor, the
/// sky gradient on a miss, and otherwise the scattered ray's estimate
/// attenuated componentwise by the material.
pub open spec fn spec_ray_color(r: Ray, objs: Seq<Object>, depth: u32, s: u64) -> (Color, u64)
    decreases depth,
{
    if depth == 0 {
        (Vec3::spec_zero(), s)
    } else {
        match spec_closest_hit(spec_world_hits(objs, r), Fx { raw: T_MIN_RAW }, Fx { raw: MAX_RAW }) {
            None => (spec_blue_gradient(r), s),
            Some(h) => {
                let sc = spec_scatter(h.material, r, h.hit_record, s);
                let sub = spec_ray_color(sc.0.scattered_ray, objs, (depth - 1) as u32, sc.1);
                (spec_vmul(sub.0, sc.0.attenuation), sub.1)
            },
        }
    }
}

/// Estimate the radiance arriving along a ray: black once the recursion
/// floor is reached, the sky gradient on a miss, and otherwise the
/// scattered ray's radiance attenuated by the material — a strictly
/// depth-bounded path tracer.
pub fn ray_color(r: Ray, w: &World, depth: u32, rng: &mut RandomSource) -> (c: Color)
    requires
        r.wf(),
        w.wf(),
        w.objects@.len() <= 0xFFFF_FFFF,
    ensures
        c.wf(),
        c == spec_ray_color(r, w.objects@, depth, old(rng).state).0,
        final(rng).state == spec_ray_color(r, w.objects@, depth, old(rng).state).1,
        depth == 0 ==> c == Vec3::spec_zero(),
        depth > 0 && spec_closest_hit(
            spec_world_hits(w.objects@, r),
            Fx { raw: T_MIN_RAW },
            Fx { raw: MAX_RAW },
        ) is None ==> c == spec_blue_gradient(r),
        depth > 0 && w.objects@.len() == 0 ==> c == spec_blue_gradient(r),
    decreases depth,
{
    if depth == 0 {
        return Vec3::zero();
    }
    let hits = w.hit(r);
    match get_closest_hit_in_range(hits.as_slice(), Fx { raw: T_MIN_RAW }, Fx { raw: MAX_RAW }) {
        None => ray_color_blue_gradient(r),
        Some(h) => match h.material.scatter(r, h.hit_record, rng) {
            Some(s) => ray_color(s.scattered_ray, w, depth - 1, rng).mul(s.attenuation),
            None => Vec3::zero(),
        },
    }
}

/// The render configuration: output size, samples per pixel, and the
/// recursion depth bound.
#[derive(Clone, Copy, Debug, PartialEq, Eq, Structural)]
pub struct RenderConfig {
    pub aspect_ratio: Fx,
    pub img_width: usize,
    pub img_height: usize,
    pub number_of_samples: u32,
    pub depth: u32,
}

impl RenderConfig {
    pub open spec fn wf(self) -> bool {
        self.aspect_ratio.wf() && self.img_width >= 1 && self.img_height >= 1
    }
}

/// The seed of the random source a row's worker owns: every row gets its
/// own independent source, so rows are deterministic however they are
/// scheduled.
pub open spec fn spec_row_seed(base_seed: u64, row: usize) -> u64 {
    base_seed ^ (((row * 0x9E37_79B9_7F4A_7C15) % 0x1_0000_0000_0000_0000) as u64)
}

/// Derive the seed of the random source for one row.
pub fn derive_row_seed(base_seed: u64, row: usize) -> (s: u64)
    ensures
        s == spec_row_seed(base_seed, row),
{
    let m: u128 = (row as u128) * 0x9E37_79B9_7F4A_7C15;
    base_seed ^ ((m % 0x1_0000_0000_0000_0000) as u64)
}

/// One sample of a pixel, drawn from state `s`: jitter the pixel
/// coordinates, normalize them to the image plane, emit the camera ray and
/// trace it to the depth bound.
pub open spec fn spec_pixel_sample(
    cam: Camera,
    objs: Seq<Object>,
    depth: u32,
    rf: Fx,
    cf: Fx,
    h1: Fx,
    w1: Fx,
    s: u64,
) -> (Color, u64) {
    let u = Fx::spec_div(Fx::spec_add(rf, spec_offset_fx(s)), h1);
    let s1 = spec_next_state(s);
    let v = Fx::spec_div(Fx::spec_add(cf, spec_offset_fx(s1)), w1);
    let s2 = spec_next_state(s1);
    let d = spec_disk_sample(s2, MAX_REJECTION_TRIES as nat);
    spec_ray_color(spec_get_ray(cam, u, v, d.0), objs, depth, d.1)
}

/// The pixel accumulator after `n` more samples are added to `acc`.
pub open spec fn spec_pixel_accum(
    acc: Color,
    cam: Camera,
    objs: Seq<Object>,
    depth: u32,
    rf: Fx,
    cf: Fx,
    h1: Fx,
    w1: Fx,
    s: u64,
    n: nat,
) -> (Color, u64)
    decreases n,
{
    if n == 0 {
        (acc, s)
    } else {
        let smp = spec_pixel_sample(cam, objs, depth, rf, cf, h1, w1, s);
        spec_pixel_accum(
            spec_vadd(acc, smp.0),
            cam,
            objs,
            depth,
            rf,
            cf,
            h1,
            w1,
            smp.1,
            (n - 1) as nat,
        )
    }
}

/// One finished pixel, drawn from state `s`: the configured number of
/// samples accumulated from black and divided by the sample count.
pub open spec fn spec_render_pixel(
    cam: Camera,
    objs: Seq<Object>,
    cfg: RenderConfig,
    rf: Fx,
    cf: Fx,
    h1: Fx,
    w1: Fx,
    s: u64,
) -> (Color, u64) {
    let a = spec_pixel_accum(
        Vec3::spec_zero(),
        cam,
        objs,
        cfg.depth,
        rf,
        cf,
        h1,
        w1,
        s,
        cfg.number_of_samples as nat,
    );
    (spec_vdiv(a.0, Fx::spec_from_int(cfg.number_of_samples as int)), a.1)
}

/// The row accumulator: the pixels of columns `j` onward appended to
/// `acc`, threading the random-source state from pixel to pixel.
pub open spec fn spec_row_accum(
    acc: Seq<Color>,
    cam: Camera,
    objs: Seq<Object>,
    cfg: RenderConfig,
    rf: Fx,
    h1: Fx,
    w1: Fx,
    s: u64,
    j: int,
) -> (Seq<Color>, u64)
    decreases cfg.img_width - j,
{
    if j < 0 || j >= cfg.img_width {
        (acc, s)
    } else {
        let p = spec_render_pixel(cam, objs, cfg, rf, Fx::spec_from_int(j), h1, w1, s);
        spec_row_accum(acc.push(p.0), cam, objs, cfg, rf, h1, w1, p.1, j + 1)
    }
}

/// The pixels of one image row, as a function of the scene, the
/// configuration and the base seed alone.
pub open spec fn spec_render_row(
    cam: Camera,
    objs: Seq<Object>,
    cfg: RenderConfig,
    base_seed: u64,
    row: usize,
) -> Seq<Color> {
    let rf = Fx::spec_from_int(cfg.img_height - row - 1);
    let h1 = Fx::spec_from_int(cfg.img_height - 1);
    let w1 = Fx::spec_from_int(cfg.img_width - 1);
    spec_row_accum(
        Seq::empty(),
        cam,
        objs,
        cfg,
        rf,
        h1,
        w1,
        spec_row_seed(base_seed, row),
        0,
    ).0
}

/// Render one row of the image: for each pixel draw the configured number
/// of jittered camera rays, trace each to the depth bound, and average the
/// results (row 0 is the image top but the viewport bottom).
#[verifier::rlimit(100)]
#[verifier::loop_isolation(false)]
pub fn render_row(w: &World, cam: &Camera, cfg: &RenderConfig, base_seed: u64, row: usize) -> (px:
    Vec<Color>)
    requires
        w.wf(),
        cam.wf(),
        cfg.wf(),
        row < cfg.img_height,
        w.objects@.len() <= 0xFFFF_FFFF,
    ensures
        px@.len() == cfg.img_width,
        px@ == spec_render_row(*cam, w.objects@, *cfg, base_seed, row),
        forall|j: int| 0 <= j < px@.len() ==> (#[trigger] px@[j]).wf(),
{
    let mut rng = RandomSource::new(derive_row_seed(base_seed, row));
    let mut px: Vec<Color> = Vec::new();
    let rf = Fx::from_usize(cfg.img_height - row - 1);
    let h1 = Fx::from_usize(cfg.img_height - 1);
    let w1 = Fx::from_usize(cfg.img_width - 1);
    let samples = Fx::from_u32(cfg.number_of_samples);
    let width = cfg.img_width;
    let ghost target = spec_row_accum(
        Seq::empty(),
        *cam,
        w.objects@,
        *cfg,
        rf,
        h1,
        w1,
        rng.state,
        0,
    );
    for j in 0..width
        invariant
            px@.len() == j,
            spec_row_accum(px@, *cam, w.objects@, *cfg, rf, h1, w1, rng.state, j as int)
                == target,
            forall|k: int| 0 <= k < px@.len() ==> (#[trigger] px@[k]).wf(),
    {
        let cf = Fx::from_usize(j);
        let ghost pixel_start = rng.state;
        let ghost pixel_target = spec_pixel_accum(
            Vec3::spec_zero(),
            *cam,
            w.objects@,
            cfg.depth,
            rf,
            cf,
            h1,
            w1,
            pixel_start,
            cfg.number_of_samples as nat,
        );
        let mut cell = Vec3::zero();
        let mut s: u32 = 0;
        while s < cfg.number_of_samples
            invariant
                s <= cfg.number_of_samples,
                cell.wf(),
                spec_pixel_accum(
                    cell,
                    *cam,
                    w.objects@,
                    cfg.depth,
                    rf,
                    cf,
                    h1,
                    w1,
                    rng.state,
                    (cfg.number_of_samples - s) as nat,
                ) == pixel_target,
            decreases cfg.number_of_samples - s,
        {
            let ghost c = rng.state;
            let ghost n_left = (cfg.number_of_samples - s) as nat;
            let u = rf.add(get_random_offset(&mut rng)).div(h1);
            let v = cf.add(get_random_offset(&mut rng)).div(w1);
            let ray = cam.get_ray(u, v, &mut rng);
            let smp = ray_color(ray, w, cfg.depth, &mut rng);
            proof {
                assert(spec_pixel_sample(*cam, w.objects@, cfg.depth, rf, cf, h1, w1, c)
                    == (smp, rng.state));
                assert(spec_pixel_accum(
                    cell,
                    *cam,
                    w.objects@,
                    cfg.depth,
                    rf,
                    cf,
                    h1,
                    w1,
                    c,
                    n_left,
                ) == spec_pixel_accum(
                    spec_vadd(cell, smp),
                    *cam,
                    w.objects@,
                    cfg.depth,
                    rf,
                    cf,
                    h1,
                    w1,
                    rng.state,
                    (n_left - 1) as nat,
                ));
            }
            cell = cell.add(smp);
            s = s + 1;
        }
        cell = cell.div(samples);
        proof {
            assert(spec_render_pixel(*cam, w.objects@, *cfg, rf, cf, h1, w1, pixel_start)
                == (cell, rng.state));
            assert(spec_row_accum(px@, *cam, w.objects@, *cfg, rf, h1, w1, pixel_start, j as int)
                == spec_row_accum(
                px@.push(cell),
                *cam,
                w.objects@,
                *cfg,
                rf,
                h1,
                w1,
                rng.state,
                j as int + 1,
            ));
        }
        px.push(cell);
    }
    px
}

/// Render every row of the image across parallel workers.
///
/// Relies on rayon: `into_par_iter` over a range with `map` and `collect`
/// into a `Vec` applies the closure to every index and keeps index order,
/// so row `i` of the result is exactly what `render_row` returns for `i`,
/// and the row contents, lengths and well-formedness come from
/// `render_row`'s own contract. Each row's worker owns its own random
/// source, seeded from the base seed and the row index.
#[verifier::external_body]
fn par_render_rows(w: &World, cam: &Camera, cfg: &RenderConfig, base_seed: u64) -> (img: Vec<
    Vec<Color>,
>)
    requires
        w.wf(),
        cam.wf(),
        cfg.wf(),
        w.objects@.len() <= 0xFFFF_FFFF,
    ensures
        img@.len() == cfg.img_height,
        forall|i: int|
            0 <= i < img@.len() ==> (#[trigger] img@[i])@ == spec_render_row(
                *cam,
                w.objects@,
                *cfg,
                base_seed,
                i as usize,
            ),
        forall|i: int| 0 <= i < img@.len() ==> (#[trigger] img@[i])@.len() == cfg.img_width,
        forall|i: int, j: int|
            0 <= i < img@.len() && 0 <= j < img@[i]@.len() ==> (#[trigger] img@[i]@[j]).wf(),
{
    (0..cfg.img_height).into_par_iter().map(|row| render_row(w, cam, cfg, base_seed, row)).collect()
}

/// Render the whole image: a row-major buffer of `img_height` rows of
/// `img_width` linear-color pixels, each pixel the average of
/// `number_of_samples` traced samples. Rows are computed independently in
/// parallel; no pixel depends on any other, and the whole buffer is a
/// function of the scene, the configuration and the seed alone.
pub fn render(w: &World, cam: &Camera, cfg: &RenderConfig, base_seed: u64) -> (img: Vec<Vec<Color>>)
    requires
        w.wf(),
        cam.wf(),
        cfg.wf(),
        w.objects@.len() <= 0xFFFF_FFFF,
    ensures
        img@.len() == cfg.img_height,
        forall|i: int|
            0 <= i < img@.len() ==> (#[trigger] img@[i])@ == spec_render_row(
                *cam,
                w.objects@,
                *cfg,
                base_seed,
                i as usize,
            ),
        forall|i: int| 0 <= i < img@.len() ==> (#[trigger] img@[i])@.len() == cfg.img_width,
        forall|i: int, j: int|
            0 <= i < img@.len() && 0 <= j < img@[i]@.len() ==> (#[trigger] img@[i]@[j]).wf(),
{
    par_render_rows(w, cam, cfg, base_seed)
}

/// The output level of one color component: scaled by 255.999 and
/// truncated toward zero. Components in `[0, 1]` give levels in
/// `[0, 255]`; out-of-range values are not clamped, as display encoding is
/// the caller's concern.
pub open spec fn spec_color_level(c: Fx) -> int {
    Fx::spec_trunc(Fx::spec_mul(c, Fx { raw: PPM_SCALE_RAW }))
}

/// Scale a color component by 255.999 and truncate to an integer level.
pub fn color_level(c: Fx) -> (lv: i64)
    requires
        c.wf(),
    ensures
        lv as int == spec_color_level(c),
        0 <= c.raw <= 65536 ==> 0 <= lv <= 255,
{
    proof {
        if 0 <= c.raw <= 65536 {
            assert(0 <= (c.raw as int) * 16777150 <= 1099507302400) by (nonlinear_arith)
                requires
                    0 <= c.raw <= 65536,
            ;
            let p = (c.raw as int) * 16777150;
            vstd::arithmetic::div_mod::lemma_div_is_ordered(p, 1099507302400, 65536);
            vstd::arithmetic::div_mod::lemma_div_pos_is_pos(p, 65536);
            let q = p / 65536;
            vstd::arithmetic::div_mod::lemma_div_is_ordered(q, 16777150, 65536);
            vstd::arithmetic::div_mod::lemma_div_pos_is_pos(q, 65536);
        }
    }
    c.mul(Fx { raw: PPM_SCALE_RAW }).trunc()
}

/// The three output levels of a pixel, in `r g b` order.
pub fn ppm_triple(c: Color) -> (lv: (i64, i64, i64))
    requires
        c.wf(),
    ensures
        lv.0 as int == spec_color_level(c.x),
        lv.1 as int == spec_color_level(c.y),
        lv.2 as int == spec_color_level(c.z),
{
    (color_level(c.x), color_level(c.y), color_level(c.z))
}

} // verus!
