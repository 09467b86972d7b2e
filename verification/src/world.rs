//! The simulation world: the entity population and the reference-image
//! state, with the per-tick steps that act on them.

use vstd::prelude::*;
use crate::entity::Bunny;
use crate::entity::HALF_EXTENT_LIMIT;
use crate::entity::bunny_in_range;
use crate::entity::bunny_in_range_exec;
use crate::entity::integrate_bunny;
use crate::entity::integrated;
use crate::entity::resolve_bunny;
use crate::entity::resolved;
use crate::metrics::Metrics;
use crate::metrics::tick_rate_millihertz;
use crate::metrics::tick_rate_of;
use crate::spawn::round_up_amount;
use crate::spawn::round_up_to_multiple;
use crate::SCREEN_HALF_HEIGHT;
use crate::SCREEN_HALF_WIDTH;

verus! {

/// Scaled half-extent per pixel of raw image size: the sprite is drawn
/// at one fifth of the raw image size, so half of a scaled pixel is
/// 100 milli-pixels.
pub const HALF_EXTENT_PER_PIXEL: i64 = 100;

/// Upper bound (exclusive) of the random spawn-position jitter, in
/// milli-pixels (5 pixels).
pub const JITTER_SPAN: u64 = 5_000;

/// Smallest initial velocity component, in milli-pixels per tick
/// (2 pixels per tick).
pub const VELOCITY_MIN: i64 = 2_000;

/// Width of the random initial-velocity interval, in milli-pixels per
/// tick: each component is uniform in [2, 4) pixels per tick.
pub const VELOCITY_SPAN: u64 = 2_000;

/// Number of entities spawned automatically when the reference image
/// finishes loading.
pub const INITIAL_BATCH: u32 = 10;

/// The reference image whose scaled size gives every entity its spawn
/// position and half-extents.  Its dimensions are unknown until the host
/// reports that the asset has finished loading.
#[derive(Clone, Copy, PartialEq, Eq, Structural, Debug)]
pub enum ImageState {
    /// The asset has not finished loading; no spawning may happen.
    Unloaded,
    /// The asset is loaded, with its raw dimensions in whole pixels.
    Loaded { width: u32, height: u32 },
}

/// Scaled half-width of the reference image, in milli-pixels; 0 while
/// the image is not loaded (as the raw dimensions then read as 0).
pub open spec fn half_width_of(img: ImageState) -> int {
    match img {
        ImageState::Unloaded => 0,
        ImageState::Loaded { width, height } => width * HALF_EXTENT_PER_PIXEL,
    }
}

/// Scaled half-height of the reference image, in milli-pixels; 0 while
/// the image is not loaded.
pub open spec fn half_height_of(img: ImageState) -> int {
    match img {
        ImageState::Unloaded => 0,
        ImageState::Loaded { width, height } => height * HALF_EXTENT_PER_PIXEL,
    }
}

/// `b` has a position and velocity that the spawner can have given it
/// under reference image `img`: placed at the left edge plus the scaled
/// half-width with a jitter of up to 5 pixels added on x, at the top
/// edge minus the scaled half-height with a jitter of up to 5 pixels
/// subtracted on y, and with each velocity component uniform in
/// [2, 4) pixels per tick.
pub open spec fn spawned_ok(b: Bunny, img: ImageState) -> bool {
    let hw = half_width_of(img);
    let hh = half_height_of(img);
    &&& -SCREEN_HALF_WIDTH + hw <= b.x < -SCREEN_HALF_WIDTH + hw + JITTER_SPAN
    &&& SCREEN_HALF_HEIGHT - hh - JITTER_SPAN < b.y <= SCREEN_HALF_HEIGHT - hh
    &&& VELOCITY_MIN <= b.vx < VELOCITY_MIN + VELOCITY_SPAN
    &&& VELOCITY_MIN <= b.vy < VELOCITY_MIN + VELOCITY_SPAN
}

/// Law: every freshly spawned entity is within the coordinate range the
/// physics functions accept, whatever the reference image's dimensions.
pub proof fn lemma_spawned_in_range(b: Bunny, img: ImageState)
    requires
        spawned_ok(b, img),
    ensures
        bunny_in_range(b),
{
}

/// Relies on fastrand::u64: a value uniform in the given range, which
/// panics only when the range is empty.
#[verifier::external_body]
fn rand_below(bound: u64) -> (r: u64)
    requires
        bound > 0,
    ensures
        r < bound,
{
    fastrand::u64(0..bound)
}

/// The simulation state: all live entities and the reference image.
pub struct World {
    /// The live entities, in spawn order; none is ever despawned.
    pub bunnies: Vec<Bunny>,
    /// The reference image, loaded at most once per run.
    pub image: ImageState,
}

impl World {
    /// A fresh world: no entities, image not yet loaded.
    pub fn new() -> (w: World)
        ensures
            w.bunnies@ =~= Seq::<Bunny>::empty(),
            w.image == ImageState::Unloaded,
    {
        World { bunnies: Vec::new(), image: ImageState::Unloaded }
    }

    /// Number of live entities.
    pub fn bunny_count(&self) -> (n: usize)
        ensures
            n == self.bunnies@.len(),
    {
        self.bunnies.len()
    }

    /// Scaled half-width of the reference image, in milli-pixels.
    pub fn half_width_milli(&self) -> (hw: i64)
        ensures
            hw == half_width_of(self.image),
            0 <= hw <= HALF_EXTENT_LIMIT,
    {
        match self.image {
            ImageState::Unloaded => 0,
            ImageState::Loaded { width, height: _ } => (width as i64) * HALF_EXTENT_PER_PIXEL,
        }
    }

    /// Scaled half-height of the reference image, in milli-pixels.
    pub fn half_height_milli(&self) -> (hh: i64)
        ensures
            hh == half_height_of(self.image),
            0 <= hh <= HALF_EXTENT_LIMIT,
    {
        match self.image {
            ImageState::Unloaded => 0,
            ImageState::Loaded { width: _, height } => (height as i64) * HALF_EXTENT_PER_PIXEL,
        }
    }

    /// Spawns `amount` new entities, each positioned from the reference
    /// image's scaled half-extents with a random jitter and given a
    /// random initial velocity.  Existing entities are untouched.
    /// Spawning is gated on load completion, so the reference image must
    /// be loaded.
    pub fn spawn_bunnies(&mut self, amount: u32)
        requires
            old(self).image is Loaded,
            old(self).bunnies@.len() + amount <= usize::MAX,
        ensures
            final(self).image == old(self).image,
            final(self).bunnies@.len() == old(self).bunnies@.len() + amount,
            forall|i: int|
                0 <= i < old(self).bunnies@.len() ==> final(self).bunnies@[i] == old(
                    self,
                ).bunnies@[i],
            forall|i: int|
                old(self).bunnies@.len() <= i < final(self).bunnies@.len() ==> spawned_ok(
                    #[trigger] final(self).bunnies@[i],
                    old(self).image,
                ),
    {
        let hw = self.half_width_milli();
        let hh = self.half_height_milli();
        let mut k: u32 = 0;
        while k < amount
            invariant
                self.image == old(self).image,
                old(self).image is Loaded,
                hw == half_width_of(self.image),
                hh == half_height_of(self.image),
                k <= amount,
                old(self).bunnies@.len() + amount <= usize::MAX,
                self.bunnies@.len() == old(self).bunnies@.len() + k,
                forall|i: int|
                    0 <= i < old(self).bunnies@.len() ==> self.bunnies@[i] == old(
                        self,
                    ).bunnies@[i],
                forall|i: int|
                    old(self).bunnies@.len() <= i < self.bunnies@.len() ==> spawned_ok(
                        #[trigger] self.bunnies@[i],
                        old(self).image,
                    ),
            decreases amount - k,
        {
            let jitter_x = rand_below(JITTER_SPAN) as i64;
            let jitter_y = rand_below(JITTER_SPAN) as i64;
            let speed_x = rand_below(VELOCITY_SPAN) as i64;
            let speed_y = rand_below(VELOCITY_SPAN) as i64;
            let bunny = Bunny {
                x: -SCREEN_HALF_WIDTH + hw + jitter_x,
                y: SCREEN_HALF_HEIGHT - hh - jitter_y,
                vx: VELOCITY_MIN + speed_x,
                vy: VELOCITY_MIN + speed_y,
            };
            self.bunnies.push(bunny);
            k = k + 1;
        }
    }

    /// Reacts to the host's report of the reference image's raw size.
    /// The first report with a non-zero width records the dimensions and
    /// spawns the initial batch of [`INITIAL_BATCH`] entities; any later
    /// report, and any report while the width still reads 0, changes
    /// nothing.
    pub fn observe_image_loaded(&mut self, width: u32, height: u32)
        requires
            old(self).bunnies@.len() + INITIAL_BATCH <= usize::MAX,
        ensures
            old(self).image is Loaded ==> *final(self) == *old(self),
            old(self).image is Unloaded && width == 0 ==> *final(self) == *old(self),
            old(self).image is Unloaded && width > 0 ==> {
                &&& final(self).image == (ImageState::Loaded { width, height })
                &&& final(self).bunnies@.len() == old(self).bunnies@.len() + INITIAL_BATCH
                &&& forall|i: int|
                    0 <= i < old(self).bunnies@.len() ==> final(self).bunnies@[i] == old(
                        self,
                    ).bunnies@[i]
                &&& forall|i: int|
                    old(self).bunnies@.len() <= i < final(self).bunnies@.len() ==> spawned_ok(
                        #[trigger] final(self).bunnies@[i],
                        final(self).image,
                    )
            },
    {
        match self.image {
            ImageState::Loaded { .. } => {},
            ImageState::Unloaded => {
                if width > 0 {
                    self.image = ImageState::Loaded { width, height };
                    self.spawn_bunnies(INITIAL_BATCH);
                }
            },
        }
    }

    /// Reacts to one frame of pointer input.  Nothing is spawned before
    /// the reference image has loaded.  Once it has: a held left button
    /// spawns one entity; otherwise a just-pressed middle button rounds
    /// the population up to the next multiple of 1000, and a just-pressed
    /// right button to the next multiple of 100.
    pub fn handle_input(&mut self, left_held: bool, middle_pressed: bool, right_pressed: bool)
        requires
            old(self).bunnies@.len() + 1000 <= usize::MAX,
            old(self).bunnies@.len() <= u32::MAX,
        ensures
            final(self).image == old(self).image,
            final(self).bunnies@.len() == old(self).bunnies@.len() + spawn_request(
                old(self).image,
                left_held,
                middle_pressed,
                right_pressed,
                old(self).bunnies@.len() as nat,
            ),
            forall|i: int|
                0 <= i < old(self).bunnies@.len() ==> final(self).bunnies@[i] == old(
                    self,
                ).bunnies@[i],
            forall|i: int|
                old(self).bunnies@.len() <= i < final(self).bunnies@.len() ==> spawned_ok(
                    #[trigger] final(self).bunnies@[i],
                    old(self).image,
                ),
    {
        match self.image {
            ImageState::Unloaded => {},
            ImageState::Loaded { .. } => {
                let count = self.bunnies.len() as u32;
                if left_held {
                    self.spawn_bunnies(1);
                } else if middle_pressed {
                    let to_add = round_up_to_multiple(count, 1000);
                    self.spawn_bunnies(to_add);
                } else if right_pressed {
                    let to_add = round_up_to_multiple(count, 100);
                    self.spawn_bunnies(to_add);
                }
            },
        }
    }

    /// Whether every entity's coordinates and velocities are within the
    /// range the physics passes accept.  The tick loop tests this before
    /// integrating; it can only read false after an extravagantly long
    /// unattended run.
    pub fn all_in_range(&self) -> (r: bool)
        ensures
            r == (forall|i: int|
                0 <= i < self.bunnies@.len() ==> bunny_in_range(#[trigger] self.bunnies@[i])),
    {
        let mut k: usize = 0;
        while k < self.bunnies.len()
            invariant
                k <= self.bunnies@.len(),
                forall|i: int| 0 <= i < k ==> bunny_in_range(#[trigger] self.bunnies@[i]),
            decreases self.bunnies@.len() - k,
        {
            if !bunny_in_range_exec(&self.bunnies[k]) {
                return false;
            }
            k = k + 1;
        }
        true
    }

    /// One metrics-reporter pass: samples the live entity count and the
    /// tick rate derived from the fixed tick duration, and pairs them
    /// with the host's smoothed frame rate.  A snapshot is produced
    /// exactly when the host supplies a frame rate; without one nothing
    /// is published.
    pub fn report_metrics(&self, smoothed_fps_milli: Option<u64>, tick_delta_micros: u64) -> (r:
        Option<Metrics>)
        ensures
            r is Some <==> smoothed_fps_milli is Some,
            r is Some ==> {
                &&& r->0.fps_milli == smoothed_fps_milli->0
                &&& r->0.tps_milli == tick_rate_of(tick_delta_micros)
                &&& r->0.bunnies == self.bunnies@.len()
            },
    {
        match smoothed_fps_milli {
            None => None,
            Some(fps_milli) => Some(
                Metrics {
                    fps_milli,
                    tps_milli: tick_rate_millihertz(tick_delta_micros),
                    bunnies: self.bunnies.len(),
                },
            ),
        }
    }

    /// One integrator pass: every entity's position advances by its
    /// velocity and its vertical velocity is pulled down by gravity.
    pub fn update_positions(&mut self)
        requires
            forall|i: int|
                0 <= i < old(self).bunnies@.len() ==> bunny_in_range(
                    #[trigger] old(self).bunnies@[i],
                ),
        ensures
            final(self).image == old(self).image,
            final(self).bunnies@.len() == old(self).bunnies@.len(),
            forall|i: int|
                0 <= i < old(self).bunnies@.len() ==> final(self).bunnies@[i] == integrated(
                    #[trigger] old(self).bunnies@[i],
                ),
    {
        let mut k: usize = 0;
        while k < self.bunnies.len()
            invariant
                self.image == old(self).image,
                k <= self.bunnies@.len(),
                self.bunnies@.len() == old(self).bunnies@.len(),
                forall|i: int|
                    0 <= i < k ==> self.bunnies@[i] == integrated(#[trigger] old(self).bunnies@[i]),
                forall|i: int|
                    k <= i < self.bunnies@.len() ==> self.bunnies@[i] == old(self).bunnies@[i],
                forall|i: int|
                    0 <= i < old(self).bunnies@.len() ==> bunny_in_range(
                        #[trigger] old(self).bunnies@[i],
                    ),
            decreases self.bunnies@.len() - k,
        {
            let mut bunny = self.bunnies[k];
            integrate_bunny(&mut bunny);
            self.bunnies.set(k, bunny);
            k = k + 1;
        }
    }

    /// One boundary-resolver pass: every entity is reflected off the
    /// left/right edges, clamped and reflected at the floor, and damped
    /// near the ceiling, against the reference image's half-extents.
    pub fn check_boundaries(&mut self)
        requires
            forall|i: int|
                0 <= i < old(self).bunnies@.len() ==> bunny_in_range(
                    #[trigger] old(self).bunnies@[i],
                ),
        ensures
            final(self).image == old(self).image,
            final(self).bunnies@.len() == old(self).bunnies@.len(),
            forall|i: int|
                0 <= i < old(self).bunnies@.len() ==> final(self).bunnies@[i] == resolved(
                    #[trigger] old(self).bunnies@[i],
                    half_width_of(old(self).image),
                    half_height_of(old(self).image),
                ),
            forall|i: int|
                0 <= i < final(self).bunnies@.len() ==> bunny_in_range(
                    #[trigger] final(self).bunnies@[i],
                ),
    {
        let hw = self.half_width_milli();
        let hh = self.half_height_milli();
        let mut k: usize = 0;
        while k < self.bunnies.len()
            invariant
                self.image == old(self).image,
                hw == half_width_of(self.image),
                hh == half_height_of(self.image),
                0 <= hw <= HALF_EXTENT_LIMIT,
                0 <= hh <= HALF_EXTENT_LIMIT,
                k <= self.bunnies@.len(),
                self.bunnies@.len() == old(self).bunnies@.len(),
                forall|i: int|
                    0 <= i < k ==> self.bunnies@[i] == resolved(
                        #[trigger] old(self).bunnies@[i],
                        half_width_of(old(self).image),
                        half_height_of(old(self).image),
                    ),
                forall|i: int| 0 <= i < k ==> bunny_in_range(#[trigger] self.bunnies@[i]),
                forall|i: int|
                    k <= i < self.bunnies@.len() ==> self.bunnies@[i] == old(self).bunnies@[i],
                forall|i: int|
                    0 <= i < old(self).bunnies@.len() ==> bunny_in_range(
                        #[trigger] old(self).bunnies@[i],
                    ),
            decreases self.bunnies@.len() - k,
        {
            let mut bunny = self.bunnies[k];
            resolve_bunny(&mut bunny, hw, hh);
            self.bunnies.set(k, bunny);
            k = k + 1;
        }
    }
}

/// How many entities one frame of pointer input spawns, given the image
/// state, the three pointer signals and the current population `c`: none
/// before the image has loaded; else 1 for a held left button, a
/// round-up to the next multiple of 1000 for a just-pressed middle
/// button, a round-up to the next multiple of 100 for a just-pressed
/// right button (in that priority order), and 0 with no pointer signal.
pub open spec fn spawn_request(img: ImageState, left: bool, middle: bool, right: bool, c: nat) -> nat {
    if img is Unloaded {
        0
    } else if left {
        1
    } else if middle {
        round_up_amount(c, 1000)
    } else if right {
        round_up_amount(c, 100)
    } else {
        0
    }
}

} // verus!
