//! The particle field: a fixed population of particles on a toroidal domain
//! `[-W/2, W/2) x [-H/2, H/2)`. Each tick, every particle samples the
//! intensity of the displayed raster at the pixel under it; over a bright
//! pixel it takes a uniform random step per axis and wraps toroidally, over a
//! dark pixel it stands still and records the current play index — the event
//! the fading tint is keyed to.
//!
//! Coordinates are fixed-point: `COORD_SCALE` position units per world unit,
//! so fractional world positions are exact integers here.

use vstd::prelude::*;
use crate::controller::{State, spec_is_playing, is_playing};
use crate::rng::sample_uniform;

verus! {

/// Raster width in pixels, and the width of the toroidal domain in world
/// units.
pub const WIDTH: usize = 480;

/// Raster height in pixels, and the height of the toroidal domain in world
/// units.
pub const HEIGHT: usize = 360;

/// Fixed-point scale: position units per world unit.
pub const COORD_SCALE: i32 = 1000;

/// Half the domain width, in position units; x ranges over [-HALF_WIDTH, HALF_WIDTH).
pub const HALF_WIDTH: i32 = 240 * COORD_SCALE;

/// Half the domain height, in position units; y ranges over [-HALF_HEIGHT, HALF_HEIGHT).
pub const HALF_HEIGHT: i32 = 180 * COORD_SCALE;

/// Intensity strictly above this marks a bright pixel, over which particles
/// random-walk; at or below it they freeze.
pub const BRIGHT_THRESHOLD: u8 = 128;

/// Largest random step per axis and tick, in world units.
pub const STEP_MAX: i32 = 5;

/// Size of the particle population.
pub const PARTICLE_COUNT: usize = 30000;

/// A decoded raster: row-major pixels of `bytes_per_pixel` bytes each, the
/// first byte of each pixel holding the intensity channel.
pub struct Frame {
    width: usize,
    height: usize,
    bytes_per_pixel: usize,
    data: Vec<u8>,
}

impl Frame {
    pub closed spec fn spec_width(&self) -> usize {
        self.width
    }

    pub closed spec fn spec_height(&self) -> usize {
        self.height
    }

    pub closed spec fn spec_bytes_per_pixel(&self) -> usize {
        self.bytes_per_pixel
    }

    pub closed spec fn spec_data(&self) -> Seq<u8> {
        self.data@
    }

    /// The pixel data covers exactly `width * height` pixels.
    pub open spec fn wf(&self) -> bool {
        &&& self.spec_bytes_per_pixel() >= 1
        &&& self.spec_data().len() ==
            self.spec_width() * self.spec_height() * self.spec_bytes_per_pixel()
    }

    /// The intensity channel of the pixel at (col, row).
    pub open spec fn spec_sample(&self, col: int, row: int) -> u8 {
        self.spec_data()[(row * self.spec_width() + col) * self.spec_bytes_per_pixel()]
    }

    /// Builds a frame; fails exactly when `bytes_per_pixel` is zero or the
    /// data does not cover `width * height` pixels.
    pub fn new(width: usize, height: usize, bytes_per_pixel: usize, data: Vec<u8>) -> (r: Option<
        Frame,
    >)
        ensures
            (bytes_per_pixel >= 1 && data@.len() == width * height * bytes_per_pixel)
                <==> r is Some,
            r is Some ==> r->0.wf() && r->0.spec_width() == width && r->0.spec_height() == height
                && r->0.spec_bytes_per_pixel() == bytes_per_pixel && r->0.spec_data() == data@,
    {
        let dlen = data.len();
        if bytes_per_pixel == 0 {
            return None;
        }
        let pixels = match width.checked_mul(height) {
            Some(v) => v,
            None => {
                proof {
                    lemma_product_large(
                        width as int,
                        height as int,
                        bytes_per_pixel as int,
                        dlen as int,
                    );
                }
                return None;
            },
        };
        let total = match pixels.checked_mul(bytes_per_pixel) {
            Some(v) => v,
            None => {
                return None;
            },
        };
        if dlen == total {
            Some(Frame { width, height, bytes_per_pixel, data })
        } else {
            None
        }
    }

    /// Reads the intensity channel of the pixel at (col, row).
    pub fn sample(&self, col: usize, row: usize) -> (r: u8)
        requires
            self.wf(),
            col < self.spec_width(),
            row < self.spec_height(),
        ensures
            r == self.spec_sample(col as int, row as int),
    {
        let dlen = self.data.len();
        proof {
            lemma_pixel_index_bound(
                col as int,
                row as int,
                self.spec_width() as int,
                self.spec_height() as int,
                self.spec_bytes_per_pixel() as int,
            );
        }
        let idx = (row * self.width + col) * self.bytes_per_pixel;
        self.data[idx]
    }

    pub fn width(&self) -> (r: usize)
        ensures
            r == self.spec_width(),
    {
        self.width
    }

    pub fn height(&self) -> (r: usize)
        ensures
            r == self.spec_height(),
    {
        self.height
    }
}

/// If `w * h` exceeds usize::MAX then so does `w * h * bpp` for `bpp >= 1`,
/// so no data vector of machine length can cover it.
proof fn lemma_product_large(w: int, h: int, bpp: int, len: int)
    requires
        w * h > usize::MAX,
        bpp >= 1,
        len <= usize::MAX,
    ensures
        len != w * h * bpp,
{
    assert(w * h * bpp >= w * h * 1) by (nonlinear_arith)
        requires w * h > 0 && bpp >= 1;
}

/// The byte index of a pixel inside the raster stays within the data.
proof fn lemma_pixel_index_bound(col: int, row: int, w: int, h: int, bpp: int)
    requires
        0 <= col < w,
        0 <= row < h,
        1 <= bpp,
    ensures
        0 <= row * w + col < w * h,
        (row * w + col) * bpp < w * h * bpp,
        w * h <= w * h * bpp,
{
    assert(row * w + col < w * h) by (nonlinear_arith)
        requires 0 <= col < w && 0 <= row < h;
    assert((row * w + col) * bpp <= (w * h - 1) * bpp) by (nonlinear_arith)
        requires row * w + col <= w * h - 1 && bpp >= 1;
    assert((w * h - 1) * bpp < w * h * bpp) by (nonlinear_arith)
        requires bpp >= 1;
    assert(w * h <= w * h * bpp) by (nonlinear_arith)
        requires w * h >= 0 && bpp >= 1;
}

/// One particle: a fixed-point position on the toroidal domain and the play
/// index at which it was last observed still on a dark pixel.
#[derive(Clone, Copy, Debug, PartialEq, Eq, Structural)]
pub struct Particle {
    pub x: i32,
    pub y: i32,
    pub last_moved_index: usize,
}

impl Particle {
    /// The position lies on the toroidal domain.
    pub open spec fn in_domain(&self) -> bool {
        &&& -HALF_WIDTH <= self.x < HALF_WIDTH
        &&& -HALF_HEIGHT <= self.y < HALF_HEIGHT
    }
}

pub open spec fn spec_clamp(v: int, lo: int, hi: int) -> int {
    if v < lo {
        lo
    } else if v > hi {
        hi
    } else {
        v
    }
}

/// The raster column under fixed-point coordinate `x`: the floor of the
/// world coordinate shifted into [0, WIDTH), clamped into the raster.
pub open spec fn spec_pixel_col(x: int) -> int {
    spec_clamp((x + HALF_WIDTH) / (COORD_SCALE as int), 0, WIDTH - 1)
}

/// The raster row under fixed-point coordinate `y`: as the column, then
/// flipped so that the domain's low edge maps to the raster's bottom row.
pub open spec fn spec_pixel_row(y: int) -> int {
    spec_clamp((HEIGHT - 1) - (y + HALF_HEIGHT) / (COORD_SCALE as int), 0, HEIGHT - 1)
}

/// Maps an in-domain position to the raster pixel it lies on.
pub fn pixel_coords(x: i32, y: i32) -> (r: (usize, usize))
    requires
        -HALF_WIDTH <= x < HALF_WIDTH,
        -HALF_HEIGHT <= y < HALF_HEIGHT,
    ensures
        r.0 == spec_pixel_col(x as int),
        r.1 == spec_pixel_row(y as int),
        r.0 < WIDTH,
        r.1 < HEIGHT,
{
    let col = (x + HALF_WIDTH) / COORD_SCALE;
    let flipped = (HEIGHT - 1) as i32 - (y + HALF_HEIGHT) / COORD_SCALE;
    let col_clamped: usize = if col < 0 {
        0
    } else if col > (WIDTH - 1) as i32 {
        WIDTH - 1
    } else {
        col as usize
    };
    let row_clamped: usize = if flipped < 0 {
        0
    } else if flipped > (HEIGHT - 1) as i32 {
        HEIGHT - 1
    } else {
        flipped as usize
    };
    (col_clamped, row_clamped)
}

/// One axis of the toroidal wrap: a coordinate that left the domain over
/// either edge is teleported to the low edge `-half`; an in-range coordinate
/// is unchanged.
pub open spec fn spec_wrap(x: int, half: int) -> int {
    let lifted = if x < -half {
        half
    } else {
        x
    };
    if lifted >= half {
        -half
    } else {
        lifted
    }
}

pub fn wrap_coord(x: i32, half: i32) -> (r: i32)
    requires
        0 < half,
    ensures
        r == spec_wrap(x as int, half as int),
        -half <= r < half,
{
    let mut r = x;
    if r < -half {
        r = half;
    }
    if r >= half {
        r = -half;
    }
    r
}

/// Wrap law, upper edge: a coordinate at or past `half` is wrapped onto the
/// low edge, back inside the domain; at exactly `half` that equals the
/// toroidal shift by the full domain width `2 * half`.
pub proof fn lemma_wrap_upper(x: int, half: int)
    requires
        0 < half,
        half <= x,
    ensures
        spec_wrap(x, half) == -half,
        -half <= spec_wrap(x, half) < half,
        x == half ==> spec_wrap(x, half) == x - 2 * half,
{
}

/// Wrap law, lower edge: a coordinate below `-half` is first lifted to the
/// opposite edge and so also lands on `-half`, inside the domain.
pub proof fn lemma_wrap_lower(x: int, half: int)
    requires
        0 < half,
        x < -half,
    ensures
        spec_wrap(x, half) == -half,
        -half <= spec_wrap(x, half) < half,
{
}

/// Every wrapped coordinate lies in the domain, whatever came in.
pub proof fn lemma_wrap_in_domain(x: int, half: int)
    requires
        0 < half,
    ensures
        -half <= spec_wrap(x, half) < half,
{
}

/// Whether `post` is `pre` after one simulation step on `frame` with the
/// per-axis steps (dx, dy): on a dark pixel the particle stands still and
/// records the play index; on a bright one it steps, wraps, and keeps its
/// record.
pub open spec fn spec_steps(
    pre: Particle,
    post: Particle,
    frame: &Frame,
    play_index: usize,
    dx: int,
    dy: int,
) -> bool {
    let intensity = frame.spec_sample(spec_pixel_col(pre.x as int), spec_pixel_row(pre.y as int));
    if intensity > BRIGHT_THRESHOLD {
        &&& post.x == spec_wrap(pre.x + dx * COORD_SCALE, HALF_WIDTH as int)
        &&& post.y == spec_wrap(pre.y + dy * COORD_SCALE, HALF_HEIGHT as int)
        &&& post.last_moved_index == pre.last_moved_index
    } else {
        &&& post.x == pre.x
        &&& post.y == pre.y
        &&& post.last_moved_index == play_index
    }
}

/// One simulation step for one particle: sample the raster at the pixel
/// under the particle; over a bright pixel take the given step on each axis
/// and wrap toroidally, over a dark pixel stand still and record the current
/// play index. A particle on a dark pixel never changes position in a tick.
pub fn step_particle(p: &mut Particle, frame: &Frame, play_index: usize, dx: i32, dy: i32)
    requires
        old(p).in_domain(),
        frame.wf(),
        frame.spec_width() == WIDTH,
        frame.spec_height() == HEIGHT,
        -STEP_MAX <= dx <= STEP_MAX,
        -STEP_MAX <= dy <= STEP_MAX,
    ensures
        final(p).in_domain(),
        spec_steps(*old(p), *final(p), frame, play_index, dx as int, dy as int),
{
    let (col, row) = pixel_coords(p.x, p.y);
    let intensity = frame.sample(col, row);
    if intensity > BRIGHT_THRESHOLD {
        p.x = wrap_coord(p.x + dx * COORD_SCALE, HALF_WIDTH);
        p.y = wrap_coord(p.y + dy * COORD_SCALE, HALF_HEIGHT);
    } else {
        p.last_moved_index = play_index;
    }
}

/// Decision determinism: under a fixed frame and fixed per-axis draws, a
/// particle sampling a dark pixel keeps its position exactly, and one
/// sampling a bright pixel lands on the toroidal wrap of its position
/// shifted by the draws — at most STEP_MAX world units per axis.
pub proof fn lemma_decision_determinism(
    pre: Particle,
    post: Particle,
    frame: &Frame,
    play_index: usize,
    dx: int,
    dy: int,
)
    requires
        spec_steps(pre, post, frame, play_index, dx, dy),
    ensures
        frame.spec_sample(spec_pixel_col(pre.x as int), spec_pixel_row(pre.y as int))
            <= BRIGHT_THRESHOLD ==> post.x == pre.x && post.y == pre.y,
        frame.spec_sample(spec_pixel_col(pre.x as int), spec_pixel_row(pre.y as int))
            > BRIGHT_THRESHOLD ==> post.x == spec_wrap(pre.x + dx * COORD_SCALE, HALF_WIDTH as int)
            && post.y == spec_wrap(pre.y + dy * COORD_SCALE, HALF_HEIGHT as int),
{
}

/// Whether `post` is `pre` after one simulation step on `frame` with some
/// per-axis steps, each within the random-walk range.
pub open spec fn spec_stepped(pre: Particle, post: Particle, frame: &Frame, play_index: usize) -> bool {
    exists|dx: int, dy: int|
        -STEP_MAX <= dx <= STEP_MAX && -STEP_MAX <= dy <= STEP_MAX && #[trigger] spec_steps(
            pre,
            post,
            frame,
            play_index,
            dx,
            dy,
        )
}

/// The particle population.
pub struct ParticleField {
    particles: Vec<Particle>,
}

impl ParticleField {
    pub closed spec fn spec_particles(&self) -> Seq<Particle> {
        self.particles@
    }

    /// Every particle lies on the toroidal domain.
    pub open spec fn wf(&self) -> bool {
        forall|i: int|
            0 <= i < self.spec_particles().len() ==> (#[trigger] self.spec_particles()[i]).in_domain()
    }

    /// A field of `n` particles at uniformly random whole-unit positions,
    /// none yet recorded still.
    pub fn new_random(n: usize) -> (r: ParticleField)
        ensures
            r.wf(),
            r.spec_particles().len() == n,
            forall|i: int|
                0 <= i < n ==> (#[trigger] r.spec_particles()[i]).last_moved_index == 0,
    {
        let mut particles: Vec<Particle> = Vec::new();
        let mut k: usize = 0;
        while k < n
            invariant
                k <= n,
                particles@.len() == k,
                forall|i: int| 0 <= i < k ==> (#[trigger] particles@[i]).in_domain(),
                forall|i: int| 0 <= i < k ==> (#[trigger] particles@[i]).last_moved_index == 0,
            decreases n - k,
        {
            let ux = sample_uniform(-240, 239);
            let uy = sample_uniform(-180, 179);
            particles.push(
                Particle { x: ux * COORD_SCALE, y: uy * COORD_SCALE, last_moved_index: 0 },
            );
            k = k + 1;
        }
        ParticleField { particles }
    }

    /// A field populated from the given particles; fails exactly when one of
    /// them lies outside the toroidal domain.
    pub fn from_particles(particles: Vec<Particle>) -> (r: Option<ParticleField>)
        ensures
            (forall|i: int| 0 <= i < particles@.len() ==> (#[trigger] particles@[i]).in_domain())
                <==> r is Some,
            r is Some ==> r->0.wf() && r->0.spec_particles() == particles@,
    {
        let mut k: usize = 0;
        while k < particles.len()
            invariant
                k <= particles@.len(),
                forall|i: int| 0 <= i < k ==> (#[trigger] particles@[i]).in_domain(),
            decreases particles@.len() - k,
        {
            let p = particles[k];
            if !(-HALF_WIDTH <= p.x && p.x < HALF_WIDTH && -HALF_HEIGHT <= p.y && p.y
                < HALF_HEIGHT) {
                return None;
            }
            k = k + 1;
        }
        Some(ParticleField { particles })
    }

    pub fn len(&self) -> (r: usize)
        ensures
            r == self.spec_particles().len(),
    {
        self.particles.len()
    }

    pub fn particle_at(&self, i: usize) -> (p: Particle)
        requires
            i < self.spec_particles().len(),
        ensures
            p == self.spec_particles()[i as int],
    {
        self.particles[i]
    }

    /// One simulation tick over the whole population, gated twice: a no-op
    /// while Paused, and a no-op when the raster's resolution is not the
    /// expected WIDTH x HEIGHT — the defensive guard against sampling out of
    /// bounds. Otherwise every particle takes one step with its own random
    /// draws.
    pub fn tick(&mut self, frame: &Frame, play_index: usize, state: &State)
        requires
            old(self).wf(),
            frame.wf(),
        ensures
            final(self).wf(),
            !(spec_is_playing(*state) && frame.spec_width() == WIDTH && frame.spec_height()
                == HEIGHT) ==> *final(self) == *old(self),
            final(self).spec_particles().len() == old(self).spec_particles().len(),
            spec_is_playing(*state) && frame.spec_width() == WIDTH && frame.spec_height() == HEIGHT
                ==> forall|i: int|
                0 <= i < old(self).spec_particles().len() ==> #[trigger] spec_stepped(
                    old(self).spec_particles()[i],
                    final(self).spec_particles()[i],
                    frame,
                    play_index,
                ),
    {
        if !is_playing(state) {
            return;
        }
        if frame.width() != WIDTH {
            return;
        }
        if frame.height() != HEIGHT {
            return;
        }
        let n = self.particles.len();
        let mut k: usize = 0;
        while k < n
            invariant
                n == old(self).spec_particles().len(),
                self.particles@.len() == n,
                k <= n,
                frame.wf(),
                frame.spec_width() == WIDTH,
                frame.spec_height() == HEIGHT,
                old(self).wf(),
                forall|i: int| k <= i < n ==> self.particles@[i] == old(self).spec_particles()[i],
                forall|i: int|
                    0 <= i < k ==> #[trigger] spec_stepped(
                        old(self).spec_particles()[i],
                        self.particles@[i],
                        frame,
                        play_index,
                    ),
                forall|i: int| 0 <= i < n ==> (#[trigger] self.particles@[i]).in_domain(),
            decreases n - k,
        {
            let dx = sample_uniform(-STEP_MAX, STEP_MAX);
            let dy = sample_uniform(-STEP_MAX, STEP_MAX);
            let mut p = self.particles[k];
            step_particle(&mut p, frame, play_index, dx, dy);
            self.particles[k] = p;
            proof {
                assert(spec_steps(
                    old(self).spec_particles()[k as int],
                    p,
                    frame,
                    play_index,
                    dx as int,
                    dy as int,
                ));
                assert(spec_stepped(
                    old(self).spec_particles()[k as int],
                    self.particles@[k as int],
                    frame,
                    play_index,
                ));
            }
            k = k + 1;
        }
    }
}

/// How a particle is tinted: pure black exactly when it was observed still
/// at the current play index; otherwise fading, keyed by how many frames ago
/// that observation was.
#[derive(Clone, Copy, Debug, PartialEq, Eq, Structural)]
pub enum Shade {
    Black,
    Fading(usize),
}

pub open spec fn spec_shade(last_moved_index: usize, play_index: usize) -> Shade {
    if play_index == last_moved_index {
        Shade::Black
    } else {
        Shade::Fading((play_index - last_moved_index) as usize)
    }
}

/// The shade is black exactly at a fade difference of zero, and the
/// difference grows strictly with the play index while the stillness record
/// stands — the integer core of the fade's monotonicity; the curve applied
/// to the difference afterwards is itself increasing.
pub proof fn lemma_shade_monotonic(last: usize, play1: usize, play2: usize)
    requires
        last <= play1,
        play1 < play2,
    ensures
        spec_shade(last, play1) == Shade::Black <==> play1 == last,
        spec_shade(last, play2) is Fading,
        spec_shade(last, play1) is Fading ==> spec_shade(last, play1)->0 < spec_shade(
            last,
            play2,
        )->0,
{
}

/// The tint owed to a particle: black exactly when `diff == 0` for
/// `diff = play_index - last_moved_index`, else `Fading(diff)`. The caller
/// turns `Fading(diff)` into the negative-exponential red fade.
pub fn particle_shade(p: &Particle, play_index: usize) -> (s: Shade)
    requires
        p.last_moved_index <= play_index,
    ensures
        s == spec_shade(p.last_moved_index, play_index),
        s == Shade::Black <==> play_index == p.last_moved_index,
        p.last_moved_index < play_index ==> s == Shade::Fading(
            (play_index - p.last_moved_index) as usize,
        ),
{
    let diff = play_index - p.last_moved_index;
    if diff == 0 {
        Shade::Black
    } else {
        Shade::Fading(diff)
    }
}

} // verus!
