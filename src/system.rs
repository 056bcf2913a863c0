use vstd::prelude::*;

use crate::layout::{placement_at, system_layout, Placement};

verus! {

/// Mass of the central body.
pub const CENTRAL_MASS: u32 = 8000;

/// Radius of the central body.
pub const CENTRAL_RADIUS: u32 = 25;

/// Number of satellites around the central body.
pub const SATELLITE_COUNT: usize = 4;

/// Index, among the satellites, of the one that hosts the moons.
pub const MOON_HOST: usize = 1;

/// Number of moons around the host satellite.
pub const MOON_COUNT: usize = 2;

/// One body of the default system before its orbit is worked out: where it
/// goes, its mass and radius, its distance from its host (zero for the
/// central body) and its color.
#[derive(Clone, Debug, PartialEq)]
pub struct Seed {
    pub placement: Placement,
    pub mass: u32,
    pub distance: u32,
    pub radius: u32,
    pub color: String,
}

/// Mass, orbital distance, radius and color of each satellite, in order.
pub open spec fn satellite_rows() -> Seq<(u32, u32, u32, Seq<char>)> {
    seq![
        (1000u32, 120u32, 10u32, "#ff9999"@),
        (1500u32, 200u32, 12u32, "#3366ff"@),
        (3000u32, 350u32, 18u32, "#ff6600"@),
        (2000u32, 450u32, 15u32, "#33ccff"@),
    ]
}

/// Mass, orbital distance, radius and color of each moon, in order.
pub open spec fn moon_rows() -> Seq<(u32, u32, u32, Seq<char>)> {
    seq![(100u32, 35u32, 4u32, "#cccccc"@), (50u32, 25u32, 3u32, "#aaaaaa"@)]
}

/// Mass, distance, radius and color of the body at index `k` of the
/// default system.
pub open spec fn seed_row(k: nat) -> (u32, u32, u32, Seq<char>) {
    if k == 0 {
        (CENTRAL_MASS, 0u32, CENTRAL_RADIUS, "#ffcc00"@)
    } else if k <= SATELLITE_COUNT {
        satellite_rows()[k - 1]
    } else {
        moon_rows()[k - 1 - SATELLITE_COUNT]
    }
}

/// The number of bodies of the default system.
pub open spec fn default_len() -> nat {
    (1 + SATELLITE_COUNT + MOON_COUNT) as nat
}

/// What a seed holds, with the color as its characters.
pub open spec fn seed_view(s: Seed) -> (Placement, u32, u32, u32, Seq<char>) {
    (s.placement, s.mass, s.distance, s.radius, s.color@)
}

/// Whether `s` is the seed of the body at index `k` of the default system.
pub open spec fn is_default_seed(s: Seed, k: nat) -> bool {
    &&& s.placement == placement_at(SATELLITE_COUNT as nat, MOON_HOST as nat, MOON_COUNT as nat, k)
    &&& (s.mass, s.distance, s.radius, s.color@) == seed_row(k)
}

fn orbit_row(mass: u32, distance: u32, radius: u32, color: &str) -> (r: (u32, u32, u32, String))
    ensures
        (r.0, r.1, r.2, r.3@) == (mass, distance, radius, color@),
{
    (mass, distance, radius, color.to_owned())
}

fn satellite_table() -> (r: Vec<(u32, u32, u32, String)>)
    ensures
        r@.len() == satellite_rows().len(),
        forall|i: int| 0 <= i < r@.len() ==>
            (#[trigger] r@[i].0, r@[i].1, r@[i].2, r@[i].3@) == satellite_rows()[i],
{
    let r = vec![
        orbit_row(1000, 120, 10, "#ff9999"),
        orbit_row(1500, 200, 12, "#3366ff"),
        orbit_row(3000, 350, 18, "#ff6600"),
        orbit_row(2000, 450, 15, "#33ccff"),
    ];
    r
}

fn moon_table() -> (r: Vec<(u32, u32, u32, String)>)
    ensures
        r@.len() == moon_rows().len(),
        forall|i: int| 0 <= i < r@.len() ==>
            (#[trigger] r@[i].0, r@[i].1, r@[i].2, r@[i].3@) == moon_rows()[i],
{
    let r = vec![orbit_row(100, 35, 4, "#cccccc"), orbit_row(50, 25, 3, "#aaaaaa")];
    r
}

/// The seeds of the default system: a central body, four satellites spread
/// over a full turn, and two moons spread over a half turn around the second
/// satellite.
pub fn default_seeds() -> (r: Vec<Seed>)
    ensures
        r@.len() == default_len(),
        forall|k: int| 0 <= k < r@.len() ==> is_default_seed(#[trigger] r@[k], k as nat),
{
    let layout = system_layout(SATELLITE_COUNT, MOON_HOST, MOON_COUNT);
    let sats = satellite_table();
    let moons = moon_table();
    let mut r: Vec<Seed> = Vec::new();
    r.push(Seed {
        placement: layout[0],
        mass: CENTRAL_MASS,
        distance: 0,
        radius: CENTRAL_RADIUS,
        color: "#ffcc00".to_owned(),
    });
    let mut k: usize = 1;
    while k < layout.len()
        invariant
            1 <= k <= layout@.len(),
            layout@.len() == default_len(),
            layout@ =~= Seq::new(default_len(), |i: int| placement_at(SATELLITE_COUNT as nat, MOON_HOST as nat, MOON_COUNT as nat, i as nat)),
            sats@.len() == satellite_rows().len(),
            forall|i: int| 0 <= i < sats@.len() ==>
                (#[trigger] sats@[i].0, sats@[i].1, sats@[i].2, sats@[i].3@) == satellite_rows()[i],
            moons@.len() == moon_rows().len(),
            forall|i: int| 0 <= i < moons@.len() ==>
                (#[trigger] moons@[i].0, moons@[i].1, moons@[i].2, moons@[i].3@) == moon_rows()[i],
            r@.len() == k,
            forall|i: int| 0 <= i < r@.len() ==> is_default_seed(#[trigger] r@[i], i as nat),
        decreases layout@.len() - k,
    {
        let p = layout[k];
        let row = if k <= SATELLITE_COUNT {
            &sats[p.entry]
        } else {
            &moons[p.entry]
        };
        r.push(Seed {
            placement: p,
            mass: row.0,
            distance: row.1,
            radius: row.2,
            color: row.3.clone(),
        });
        k = k + 1;
    }
    r
}

/// The default system is the same on every call: any two results of
/// `default_seeds` hold the same bodies with the same ids, placements,
/// masses, distances, radii and colors.
pub proof fn default_seeds_deterministic(a: Seq<Seed>, b: Seq<Seed>)
    requires
        a.len() == default_len(),
        forall|k: int| 0 <= k < a.len() ==> is_default_seed(#[trigger] a[k], k as nat),
        b.len() == default_len(),
        forall|k: int| 0 <= k < b.len() ==> is_default_seed(#[trigger] b[k], k as nat),
    ensures
        a.len() == b.len(),
        forall|k: int| 0 <= k < a.len() ==> seed_view(#[trigger] a[k]) == seed_view(b[k]),
{
    assert forall|k: int| 0 <= k < a.len() implies seed_view(#[trigger] a[k]) == seed_view(b[k]) by {
        assert(is_default_seed(a[k], k as nat));
        assert(is_default_seed(b[k], k as nat));
    }
}

} // verus!
