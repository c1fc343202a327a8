//! Pointer picking: which of a set of spheres does a ray enter first?
//!
//! Units: positions and sphere radii are in thousandths of a world unit. A
//! ray's direction is in thousandths too, so a unit direction has length
//! 1000; hit distances are in thousandths of the direction's length, which
//! for a unit direction is thousandths of a world unit.
//!
//! All arithmetic is exact. With `w = center - origin`, the ray
//! `origin + t * direction` enters the sphere at the smaller root of
//! `a t^2 - 2 u t + g = 0`, where `a = direction . direction`,
//! `u = direction . w` and `g = w . w - radius^2`; a quarter of the
//! discriminant is `q = u^2 - a g`.

use crate::geometry::{lemma_dot_bound, lemma_product_bound, Point3, COORD_MAX, V3};
use bevy::ecs::entity::Entity;
use vstd::prelude::*;

verus! {

/// An identifier handed out by the scene host. Nothing here looks inside one.
#[verifier::external_type_specification]
#[verifier::external_body]
pub struct ExEntity(Entity);

/// A half-line from `origin` along `direction`.
#[derive(Clone, Copy, Debug)]
pub struct Ray {
    pub origin: Point3,
    pub direction: Point3,
}

/// The mathematical content of a [`Ray`].
pub struct RayModel {
    pub origin: V3,
    pub direction: V3,
}

impl View for Ray {
    type V = RayModel;

    open spec fn view(&self) -> RayModel {
        RayModel { origin: self.origin@, direction: self.direction@ }
    }
}

impl Ray {
    /// Origin and direction are both within reach.
    pub open spec fn spec_in_reach(&self) -> bool {
        self.origin.in_reach() && self.direction.in_reach()
    }

    /// Whether origin and direction are both within reach.
    #[verifier::when_used_as_spec(spec_in_reach)]
    pub fn in_reach(&self) -> (b: bool)
        ensures
            b == self.in_reach(),
    {
        self.origin.in_reach() && self.direction.in_reach()
    }
}

impl RayModel {
    /// `a`: the squared length of the direction.
    pub open spec fn lead(self) -> int {
        self.direction.dot(self.direction)
    }

    /// `u`: how far the direction points towards `center`.
    pub open spec fn approach(self, center: V3) -> int {
        self.direction.dot(center.minus(self.origin))
    }

    /// `g`: the squared distance from the origin to `center`, less the
    /// squared radius. It is negative exactly when the origin lies strictly
    /// inside the sphere.
    pub open spec fn gap(self, center: V3, radius: int) -> int {
        center.minus(self.origin).dot(center.minus(self.origin)) - radius * radius
    }

    /// `q`: a quarter of the discriminant of the intersection quadratic.
    pub open spec fn quarter_disc(self, center: V3, radius: int) -> int {
        self.approach(center) * self.approach(center) - self.lead() * self.gap(center, radius)
    }

    /// The ray meets the sphere: the direction is not zero, the discriminant
    /// is not negative, and the nearer root `(u - sqrt(q)) / a` is not
    /// negative, that is `u >= 0` and `u^2 >= q`.
    pub open spec fn hits(self, center: V3, radius: int) -> bool {
        &&& self.lead() > 0
        &&& self.quarter_disc(center, radius) >= 0
        &&& self.approach(center) >= 0
        &&& self.approach(center) * self.approach(center) >= self.quarter_disc(center, radius)
    }

    /// The point at `t` thousandths of the direction is not beyond the point
    /// of entry: `t / 1000 <= (u - sqrt(q)) / a`, written without the root.
    pub open spec fn not_past_entry(self, center: V3, radius: int, t: int) -> bool {
        let m = 1000 * self.approach(center) - self.lead() * t;
        m >= 0 && m * m >= 1_000_000 * self.quarter_disc(center, radius)
    }

    /// `k` is the distance to the point of entry in thousandths of the
    /// direction's length, rounded down.
    pub open spec fn is_hit_distance(self, center: V3, radius: int, k: int) -> bool {
        &&& k >= 0
        &&& self.not_past_entry(center, radius, k)
        &&& !self.not_past_entry(center, radius, k + 1)
    }

    /// The distance at which the ray enters the sphere, in thousandths of the
    /// direction's length and rounded down, or `None` when it does not enter.
    pub open spec fn hit_distance(self, center: V3, radius: int) -> Option<int> {
        if self.hits(center, radius) {
            Some(choose|k: int| self.is_hit_distance(center, radius, k))
        } else {
            None
        }
    }
}

/// A pickable object: a sphere about `center` that stands for `entity`.
#[derive(Clone, Copy, Debug)]
pub struct Candidate {
    pub entity: Entity,
    pub center: Point3,
    pub radius: i64,
}

impl Candidate {
    /// Centre and radius are within reach.
    pub open spec fn spec_in_reach(&self) -> bool {
        self.center.in_reach() && -COORD_MAX <= self.radius <= COORD_MAX
    }

    /// Whether centre and radius are within reach.
    #[verifier::when_used_as_spec(spec_in_reach)]
    pub fn in_reach(&self) -> (b: bool)
        ensures
            b == self.in_reach(),
    {
        self.center.in_reach() && -COORD_MAX <= self.radius && self.radius <= COORD_MAX
    }

    /// The distance at which `ray` enters this sphere, if it does.
    pub open spec fn distance_from(&self, ray: RayModel) -> Option<int> {
        ray.hit_distance(self.center@, self.radius as int)
    }
}

/// Every candidate is within reach.
pub open spec fn all_in_reach(candidates: Seq<Candidate>) -> bool {
    forall|j: int| 0 <= j < candidates.len() ==> (#[trigger] candidates[j]).in_reach()
}

/// Whether every candidate is within reach, which picking asks for.
pub fn candidates_in_reach(candidates: &Vec<Candidate>) -> (b: bool)
    ensures
        b == all_in_reach(candidates@),
{
    let mut i: usize = 0;
    while i < candidates.len()
        invariant
            i <= candidates.len(),
            forall|j: int| 0 <= j < i ==> (#[trigger] candidates@[j]).in_reach(),
        decreases candidates.len() - i,
    {
        if !candidates[i].in_reach() {
            return false;
        }
        i = i + 1;
    }
    true
}

/// None of the first `n` candidates is entered by `ray`.
pub open spec fn none_hit_among(ray: RayModel, candidates: Seq<Candidate>, n: int) -> bool {
    forall|j: int| 0 <= j < n ==> (#[trigger] candidates[j]).distance_from(ray) is None
}

/// Of the first `n` candidates, `i` is the nearest that `ray` enters, and
/// the first such where several are equally near.
pub open spec fn is_nearest_among(ray: RayModel, candidates: Seq<Candidate>, n: int, i: int) -> bool {
    &&& 0 <= i < n <= candidates.len()
    &&& candidates[i].distance_from(ray) is Some
    &&& forall|j: int|
        0 <= j < n && (#[trigger] candidates[j]).distance_from(ray) is Some
            ==> candidates[i].distance_from(ray)->0 <= candidates[j].distance_from(ray)->0
    &&& forall|j: int|
        0 <= j < i && (#[trigger] candidates[j]).distance_from(ray) is Some
            ==> candidates[i].distance_from(ray)->0 < candidates[j].distance_from(ray)->0
}

/// Candidate `i` is the nearest that `ray` enters, and the first such where
/// several are equally near.
pub open spec fn is_nearest(ray: RayModel, candidates: Seq<Candidate>, i: int) -> bool {
    is_nearest_among(ray, candidates, candidates.len() as int, i)
}

/// The index of the candidate that `ray` picks, or `None` when it enters none.
pub open spec fn nearest_index(ray: RayModel, candidates: Seq<Candidate>) -> Option<int> {
    if exists|i: int| is_nearest(ray, candidates, i) {
        Some(choose|i: int| is_nearest(ray, candidates, i))
    } else {
        None
    }
}

/// The entity that `ray` picks, or `None` when it enters no candidate.
pub open spec fn picked_entity(ray: RayModel, candidates: Seq<Candidate>) -> Option<Entity> {
    match nearest_index(ray, candidates) {
        Some(i) => Some(candidates[i].entity),
        None => None,
    }
}

/// The nearest candidate that a ray enters.
#[derive(Clone, Copy, Debug)]
pub struct Hit {
    /// Its place among the candidates.
    pub index: usize,
    /// Where the ray enters it, in thousandths of the direction's length.
    pub distance: i64,
}

/// The object that the viewer has selected, if any.
#[derive(Clone, Copy, Debug)]
pub struct SelectionState {
    pub selected_entity: Option<Entity>,
}

/// The selection after a frame: a press with a pick ray selects what the ray
/// picks, which may be nothing; any other frame keeps the selection.
pub open spec fn selection_after(
    before: Option<Entity>,
    pressed: bool,
    ray: Option<Ray>,
    candidates: Seq<Candidate>,
) -> Option<Entity> {
    match ray {
        Some(r) if pressed => picked_entity(r@, candidates),
        _ => before,
    }
}

/// At most one distance rounds the point of entry down.
pub proof fn lemma_hit_distance_unique(ray: RayModel, center: V3, radius: int, k1: int, k2: int)
    requires
        ray.lead() > 0,
        ray.is_hit_distance(center, radius, k1),
        ray.is_hit_distance(center, radius, k2),
    ensures
        k1 == k2,
{
    let a = ray.lead();
    let u = ray.approach(center);
    let big = 1_000_000 * ray.quarter_disc(center, radius);
    if k1 < k2 {
        let m2 = 1000 * u - a * k2;
        let m1 = 1000 * u - a * (k1 + 1);
        assert(m1 >= m2) by (nonlinear_arith)
            requires
                a > 0,
                k1 + 1 <= k2,
                m2 == 1000 * u - a * k2,
                m1 == 1000 * u - a * (k1 + 1),
        ;
        assert(m1 * m1 >= m2 * m2) by (nonlinear_arith)
            requires
                m1 >= m2 >= 0,
        ;
    } else if k2 < k1 {
        let m1 = 1000 * u - a * k1;
        let m2 = 1000 * u - a * (k2 + 1);
        assert(m2 >= m1) by (nonlinear_arith)
            requires
                a > 0,
                k2 + 1 <= k1,
                m1 == 1000 * u - a * k1,
                m2 == 1000 * u - a * (k2 + 1),
        ;
        assert(m2 * m2 >= m1 * m1) by (nonlinear_arith)
            requires
                m2 >= m1 >= 0,
        ;
    }
}

/// `s` is the least natural number whose square is at least `n`.
pub open spec fn is_ceil_sqrt(n: int, s: int) -> bool {
    &&& s >= 0
    &&& s * s >= n
    &&& (s == 0 || (s - 1) * (s - 1) < n)
}

/// There is at most one least root.
pub proof fn lemma_ceil_sqrt_unique(n: int, s1: int, s2: int)
    requires
        is_ceil_sqrt(n, s1),
        is_ceil_sqrt(n, s2),
    ensures
        s1 == s2,
{
    if s1 < s2 {
        assert(s1 * s1 <= (s2 - 1) * (s2 - 1)) by (nonlinear_arith)
            requires
                0 <= s1 <= s2 - 1,
        ;
    } else if s2 < s1 {
        assert(s2 * s2 <= (s1 - 1) * (s1 - 1)) by (nonlinear_arith)
            requires
                0 <= s2 <= s1 - 1,
        ;
    }
}

/// The least natural number whose square is at least `n`.
pub fn ceil_sqrt(n: u128) -> (s: u128)
    requires
        n <= 0x4000_0000_0000_0000_0000_0000_0000_0000,
    ensures
        is_ceil_sqrt(n as int, s as int),
        s <= 0x8000_0000_0000_0000,
{
    let mut lo: u128 = 0;
    let mut hi: u128 = 0x8000_0000_0000_0000;
    assert(0x8000_0000_0000_0000int * 0x8000_0000_0000_0000int
        == 0x4000_0000_0000_0000_0000_0000_0000_0000int) by (nonlinear_arith);
    while lo < hi
        invariant
            lo <= hi <= 0x8000_0000_0000_0000,
            hi * hi >= n,
            lo == 0 || (lo - 1) * (lo - 1) < n,
        decreases hi - lo,
    {
        let mid: u128 = lo + (hi - lo) / 2;
        assert(mid * mid <= 0x4000_0000_0000_0000_0000_0000_0000_0000) by (nonlinear_arith)
            requires
                0 <= mid <= 0x8000_0000_0000_0000,
        ;
        if mid * mid >= n {
            hi = mid;
        } else {
            lo = mid + 1;
        }
    }
    lo
}

/// Rounding the point of entry down with a least root: for `s` the least
/// root of `1_000_000 q`, the quotient of `1000 u - s` by `a` is the hit
/// distance.
proof fn lemma_distance_from_root(ray: RayModel, center: V3, radius: int, s: int, k: int)
    requires
        ray.hits(center, radius),
        is_ceil_sqrt(1_000_000 * ray.quarter_disc(center, radius), s),
        s <= 1000 * ray.approach(center),
        k == (1000 * ray.approach(center) - s) / ray.lead(),
    ensures
        ray.is_hit_distance(center, radius, k),
        ray.hit_distance(center, radius) == Some(k),
{
    let a = ray.lead();
    let u = ray.approach(center);
    let big = 1_000_000 * ray.quarter_disc(center, radius);
    let num = 1000 * u - s;
    let rem = num % a;
    vstd::arithmetic::div_mod::lemma_fundamental_div_mod(num, a);
    vstd::arithmetic::div_mod::lemma_mod_bound(num, a);
    vstd::arithmetic::div_mod::lemma_div_pos_is_pos(num, a);
    let m = 1000 * u - a * k;
    assert(m == s + rem);
    assert(m * m >= s * s) by (nonlinear_arith)
        requires
            m >= s >= 0,
    ;
    let below = m - a;
    assert(1000 * u - a * (k + 1) == below) by (nonlinear_arith)
        requires
            m == 1000 * u - a * k,
            below == m - a,
    ;
    if below >= 0 {
        assert(below * below <= (s - 1) * (s - 1)) by (nonlinear_arith)
            requires
                0 <= below <= s - 1,
        ;
    }
    assert(ray.is_hit_distance(center, radius, k));
    let chosen = choose|j: int| ray.is_hit_distance(center, radius, j);
    lemma_hit_distance_unique(ray, center, radius, chosen, k);
}

/// The distance at which `ray` enters the sphere about `center`, in
/// thousandths of the direction's length and rounded down; `None` when the
/// ray misses the sphere, starts inside it or has no direction.
pub fn ray_sphere_distance(ray: &Ray, center: &Point3, radius: i64) -> (r: Option<i64>)
    requires
        ray.in_reach(),
        center.in_reach(),
        -COORD_MAX <= radius <= COORD_MAX,
    ensures
        match r {
            Some(k) => ray@.hit_distance(center@, radius as int) == Some(k as int),
            None => ray@.hit_distance(center@, radius as int) is None,
        },
{
    let w = center.minus(&ray.origin);
    let a: i128 = ray.direction.dot(&ray.direction);
    let u: i128 = ray.direction.dot(&w);
    let ww: i128 = w.dot(&w);
    proof {
        lemma_dot_bound(ray.direction@, ray.direction@, 0x200_0000, 0x200_0000);
        lemma_dot_bound(ray.direction@, w@, 0x200_0000, 0x400_0000);
        lemma_dot_bound(w@, w@, 0x400_0000, 0x400_0000);
        lemma_product_bound(radius as int, radius as int, 0x200_0000, 0x200_0000);
        lemma_product_bound(u as int, u as int, 0x18_0000_0000_0000, 0x18_0000_0000_0000);
    }
    let g: i128 = ww - (radius as i128) * (radius as i128);
    proof {
        lemma_product_bound(a as int, g as int, 0xc_0000_0000_0000, 0x40_0000_0000_0000);
    }
    let uu: i128 = u * u;
    let q: i128 = uu - a * g;
    if a <= 0 || q < 0 || u < 0 || uu < q {
        return None;
    }
    let big: u128 = (1_000_000 * q) as u128;
    let s = ceil_sqrt(big);
    proof {
        let reach = 1000 * u;
        if s > reach {
            assert((s - 1) * (s - 1) >= reach * reach) by (nonlinear_arith)
                requires
                    s - 1 >= reach >= 0,
            ;
            assert(reach * reach == 1_000_000 * (u * u)) by (nonlinear_arith)
                requires
                    reach == 1000 * u,
            ;
        }
    }
    let num: u128 = (1000 * u) as u128 - s;
    let k: u128 = num / (a as u128);
    proof {
        vstd::arithmetic::div_mod::lemma_div_is_ordered_by_denominator(num as int, 1, a as int);
        lemma_distance_from_root(ray@, center@, radius as int, s as int, k as int);
    }
    Some(k as i64)
}

/// At most one candidate is the nearest.
pub proof fn lemma_nearest_unique(ray: RayModel, candidates: Seq<Candidate>, i1: int, i2: int)
    requires
        is_nearest(ray, candidates, i1),
        is_nearest(ray, candidates, i2),
    ensures
        i1 == i2,
{
}

/// Where a nearest candidate is known, it is the one picked.
pub proof fn lemma_nearest_index(ray: RayModel, candidates: Seq<Candidate>, i: int)
    requires
        is_nearest(ray, candidates, i),
    ensures
        nearest_index(ray, candidates) == Some(i),
{
    let chosen = choose|j: int| is_nearest(ray, candidates, j);
    lemma_nearest_unique(ray, candidates, chosen, i);
}

/// Where the ray enters no candidate, nothing is picked.
pub proof fn lemma_nearest_none(ray: RayModel, candidates: Seq<Candidate>)
    requires
        none_hit_among(ray, candidates, candidates.len() as int),
    ensures
        nearest_index(ray, candidates) is None,
{
    assert forall|i: int| !is_nearest(ray, candidates, i) by {
        if is_nearest(ray, candidates, i) {
            assert(candidates[i].distance_from(ray) is None);
        }
    }
}

/// The nearest candidate that `ray` enters, with the distance at which it
/// enters; the first of them where several are equally near.
pub fn nearest_hit(ray: &Ray, candidates: &Vec<Candidate>) -> (r: Option<Hit>)
    requires
        ray.in_reach(),
        all_in_reach(candidates@),
    ensures
        match r {
            Some(h) => {
                &&& nearest_index(ray@, candidates@) == Some(h.index as int)
                &&& is_nearest(ray@, candidates@, h.index as int)
                &&& candidates[h.index as int].distance_from(ray@) == Some(h.distance as int)
            },
            None => {
                &&& nearest_index(ray@, candidates@) is None
                &&& none_hit_among(ray@, candidates@, candidates.len() as int)
            },
        },
{
    let mut best: Option<Hit> = None;
    let mut i: usize = 0;
    while i < candidates.len()
        invariant
            i <= candidates.len(),
            ray.in_reach(),
            all_in_reach(candidates@),
            match best {
                Some(h) => {
                    &&& is_nearest_among(ray@, candidates@, i as int, h.index as int)
                    &&& candidates[h.index as int].distance_from(ray@) == Some(h.distance as int)
                },
                None => none_hit_among(ray@, candidates@, i as int),
            },
        decreases candidates.len() - i,
    {
        let c = &candidates[i];
        assert(c.in_reach());
        match ray_sphere_distance(ray, &c.center, c.radius) {
            Some(distance) => {
                match best {
                    Some(h) => {
                        if distance < h.distance {
                            best = Some(Hit { index: i, distance });
                        }
                    },
                    None => {
                        best = Some(Hit { index: i, distance });
                    },
                }
            },
            None => {},
        }
        i = i + 1;
    }
    proof {
        match best {
            Some(h) => {
                lemma_nearest_index(ray@, candidates@, h.index as int);
            },
            None => {
                lemma_nearest_none(ray@, candidates@);
            },
        }
    }
    best
}

/// Resolves one pick action. `pressed` says whether the select button went
/// down this frame; `ray` is the pick ray through the pointer, `None` when
/// the pointer is outside the view. A press with a ray selects the nearest
/// candidate that the ray enters, or clears the selection when it enters
/// none; any other frame leaves the selection as it was.
pub fn object_selection(
    selection: &mut SelectionState,
    pressed: bool,
    ray: Option<Ray>,
    candidates: &Vec<Candidate>,
)
    requires
        pressed ==> (ray matches Some(r) ==> r.in_reach() && all_in_reach(candidates@)),
    ensures
        final(selection).selected_entity == selection_after(
            old(selection).selected_entity,
            pressed,
            ray,
            candidates@,
        ),
{
    if !pressed {
        return ;
    }
    match ray {
        Some(r) => {
            selection.selected_entity = match nearest_hit(&r, candidates) {
                Some(h) => Some(candidates[h.index].entity),
                None => None,
            };
        },
        None => {},
    }
}

/// Where `d * m == 1000 * w`, the square of `d` times the square of `m` is a
/// million times the square of `w`, and `d * w * m` a thousand times it.
proof fn lemma_scaled_square(d: int, w: int, m: int)
    requires
        d * m == 1000 * w,
    ensures
        (d * d) * (m * m) == 1_000_000 * (w * w),
        (d * w) * m == 1000 * (w * w),
{
    let p = d * m;
    assert((d * d) * (m * m) == p * p) by (nonlinear_arith)
        requires
            p == d * m,
    ;
    assert(p * p == 1_000_000 * (w * w)) by (nonlinear_arith)
        requires
            p == 1000 * w,
    ;
    assert((d * w) * m == p * w) by (nonlinear_arith)
        requires
            p == d * m,
    ;
    assert(p * w == 1000 * (w * w)) by (nonlinear_arith)
        requires
            p == 1000 * w,
    ;
}

/// A ray of unit direction that is aimed at the centre of a sphere from
/// outside enters the sphere at the distance from its origin to the centre,
/// less the radius. `m` is that distance from origin to centre.
pub proof fn lemma_aimed_at_center(ray: RayModel, center: V3, radius: int, m: int)
    requires
        m > radius >= 0,
        center.minus(ray.origin).dot(center.minus(ray.origin)) == m * m,
        ray.direction.x * m == 1000 * (center.x - ray.origin.x),
        ray.direction.y * m == 1000 * (center.y - ray.origin.y),
        ray.direction.z * m == 1000 * (center.z - ray.origin.z),
    ensures
        ray.hit_distance(center, radius) == Some(m - radius),
{
    let d = ray.direction;
    let w = center.minus(ray.origin);
    let a = ray.lead();
    let u = ray.approach(center);
    let g = ray.gap(center, radius);
    let q = ray.quarter_disc(center, radius);
    let mm = m * m;
    assert(mm > 0) by (nonlinear_arith)
        requires
            m > 0,
            mm == m * m,
    ;
    lemma_scaled_square(d.x, w.x, m);
    lemma_scaled_square(d.y, w.y, m);
    lemma_scaled_square(d.z, w.z, m);
    assert(a * mm == 1_000_000 * mm) by (nonlinear_arith)
        requires
            a == d.x * d.x + d.y * d.y + d.z * d.z,
            w.x * w.x + w.y * w.y + w.z * w.z == mm,
            (d.x * d.x) * mm == 1_000_000 * (w.x * w.x),
            (d.y * d.y) * mm == 1_000_000 * (w.y * w.y),
            (d.z * d.z) * mm == 1_000_000 * (w.z * w.z),
    ;
    assert(a == 1_000_000) by (nonlinear_arith)
        requires
            a * mm == 1_000_000 * mm,
            mm > 0,
    ;
    assert(u * m == 1000 * mm) by (nonlinear_arith)
        requires
            u == d.x * w.x + d.y * w.y + d.z * w.z,
            w.x * w.x + w.y * w.y + w.z * w.z == mm,
            (d.x * w.x) * m == 1000 * (w.x * w.x),
            (d.y * w.y) * m == 1000 * (w.y * w.y),
            (d.z * w.z) * m == 1000 * (w.z * w.z),
    ;
    assert(u == 1000 * m) by (nonlinear_arith)
        requires
            u * m == 1000 * mm,
            mm == m * m,
            m > 0,
    ;
    assert(u * u == 1_000_000 * mm) by (nonlinear_arith)
        requires
            u == 1000 * m,
            mm == m * m,
    ;
    assert(g == mm - radius * radius);
    assert(q == 1_000_000 * (radius * radius)) by (nonlinear_arith)
        requires
            q == u * u - a * g,
            u * u == 1_000_000 * mm,
            a == 1_000_000,
            g == mm - radius * radius,
    ;
    assert(radius * radius >= 0 && mm >= radius * radius) by (nonlinear_arith)
        requires
            m > radius >= 0,
            mm == m * m,
    ;
    assert(ray.hits(center, radius));
    let k = m - radius;
    let at = 1000 * u - a * k;
    assert(at == 1_000_000 * radius);
    assert(at * at == 1_000_000 * q) by (nonlinear_arith)
        requires
            at == 1_000_000 * radius,
            q == 1_000_000 * (radius * radius),
    ;
    let beyond = 1000 * u - a * (k + 1);
    assert(beyond == 1_000_000 * (radius - 1));
    if radius > 0 {
        assert(beyond * beyond < 1_000_000 * q) by (nonlinear_arith)
            requires
                beyond == 1_000_000 * (radius - 1),
                q == 1_000_000 * (radius * radius),
                radius > 0,
        ;
    }
    assert(ray.is_hit_distance(center, radius, k));
    let chosen = choose|j: int| ray.is_hit_distance(center, radius, j);
    lemma_hit_distance_unique(ray, center, radius, chosen, k);
}

/// A ray that points away from every candidate picks nothing.
pub proof fn lemma_aimed_away(ray: RayModel, candidates: Seq<Candidate>)
    requires
        forall|j: int|
            0 <= j < candidates.len() ==> ray.approach((#[trigger] candidates[j]).center@) < 0,
    ensures
        nearest_index(ray, candidates) is None,
        picked_entity(ray, candidates) is None,
{
    assert forall|j: int| 0 <= j < candidates.len() implies (#[trigger] candidates[j]).distance_from(
        ray,
    ) is None by {
        assert(ray.approach(candidates[j].center@) < 0);
    }
    lemma_nearest_none(ray, candidates);
}

/// Of the candidates that the ray enters, the one picked is the nearest: no
/// other is entered at a smaller distance, and none before it in the list at
/// the same distance.
pub proof fn lemma_picks_nearest(ray: RayModel, candidates: Seq<Candidate>, j: int)
    requires
        0 <= j < candidates.len(),
        candidates[j].distance_from(ray) is Some,
    ensures
        nearest_index(ray, candidates) is Some,
        is_nearest(ray, candidates, nearest_index(ray, candidates)->0),
        candidates[nearest_index(ray, candidates)->0].distance_from(ray)->0
            <= candidates[j].distance_from(ray)->0,
        candidates[nearest_index(ray, candidates)->0].distance_from(ray)->0
            == candidates[j].distance_from(ray)->0 ==> nearest_index(ray, candidates)->0 <= j,
{
    lemma_nearest_exists(ray, candidates, candidates.len() as int, j);
    let i = choose|i: int| is_nearest_among(ray, candidates, candidates.len() as int, i);
    assert(is_nearest(ray, candidates, i));
    lemma_nearest_index(ray, candidates, i);
}

/// Once one of the first `n` candidates is entered, one of them is nearest.
proof fn lemma_nearest_exists(ray: RayModel, candidates: Seq<Candidate>, n: int, j: int)
    requires
        0 <= j < n <= candidates.len(),
        candidates[j].distance_from(ray) is Some,
    ensures
        exists|i: int| is_nearest_among(ray, candidates, n, i),
    decreases n,
{
    let last = n - 1;
    if j < last {
        lemma_nearest_exists(ray, candidates, last, j);
        let i = choose|i: int| is_nearest_among(ray, candidates, last, i);
        assert(is_nearest_among(ray, candidates, last, i));
        if candidates[last].distance_from(ray) is Some && candidates[last].distance_from(ray)->0
            < candidates[i].distance_from(ray)->0 {
            assert(is_nearest_among(ray, candidates, n, last));
        } else {
            assert(is_nearest_among(ray, candidates, n, i));
        }
    } else if none_hit_among(ray, candidates, last) {
        assert(is_nearest_among(ray, candidates, n, last));
    } else {
        let e = choose|e: int| 0 <= e < last && !((#[trigger] candidates[e]).distance_from(ray) is None);
        lemma_nearest_exists(ray, candidates, last, e);
        let i = choose|i: int| is_nearest_among(ray, candidates, last, i);
        assert(is_nearest_among(ray, candidates, last, i));
        if candidates[last].distance_from(ray)->0 < candidates[i].distance_from(ray)->0 {
            assert(is_nearest_among(ray, candidates, n, last));
        } else {
            assert(is_nearest_among(ray, candidates, n, i));
        }
    }
}

} // verus!
