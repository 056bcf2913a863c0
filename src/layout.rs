use vstd::prelude::*;

verus! {

/// Where a body starts: at the origin at rest, or on a circular orbit
/// around the body at index `host`.
#[derive(Clone, Copy, Debug, PartialEq, Eq, Structural)]
pub enum Orbit {
    Center,
    /// The body's initial angle is `slot / count` of a full turn, or of a half
    /// turn where `half_turn` holds; its position and velocity are offset by
    /// those of the host.
    Around { host: usize, slot: usize, count: usize, half_turn: bool },
}

/// One body of the initial configuration: its id, the row of its own table
/// (satellites or moons) that gives its mass, distance, radius and color,
/// and its orbit.
#[derive(Clone, Copy, Debug, PartialEq, Eq, Structural)]
pub struct Placement {
    pub id: u32,
    pub entry: usize,
    pub orbit: Orbit,
}

/// The body at index `k` of a system of one central body, `satellites`
/// satellites around it spread over a full turn, and `moons` moons around
/// the satellite of index `host` spread over a half turn. Ids run from 1 in
/// the order of the list.
pub open spec fn placement_at(satellites: nat, host: nat, moons: nat, k: nat) -> Placement {
    if k == 0 {
        Placement { id: 1, entry: 0, orbit: Orbit::Center }
    } else if k <= satellites {
        Placement {
            id: (k + 1) as u32,
            entry: (k - 1) as usize,
            orbit: Orbit::Around {
                host: 0,
                slot: (k - 1) as usize,
                count: satellites as usize,
                half_turn: false,
            },
        }
    } else {
        Placement {
            id: (k + 1) as u32,
            entry: (k - 1 - satellites) as usize,
            orbit: Orbit::Around {
                host: (1 + host) as usize,
                slot: (k - 1 - satellites) as usize,
                count: moons as usize,
                half_turn: true,
            },
        }
    }
}

/// The whole initial configuration as `placement_at` gives it.
pub open spec fn system_layout_spec(satellites: nat, host: nat, moons: nat) -> Seq<Placement> {
    Seq::new(1 + satellites + moons, |k: int| placement_at(satellites, host, moons, k as nat))
}

/// Lays out the initial configuration: the central body first, then the
/// satellites, then the moons of the satellite at index `host`.
pub fn system_layout(satellites: usize, host: usize, moons: usize) -> (r: Vec<Placement>)
    requires
        host < satellites,
        satellites + moons < u32::MAX,
    ensures
        r@ == system_layout_spec(satellites as nat, host as nat, moons as nat),
{
    let mut r: Vec<Placement> = Vec::new();
    r.push(Placement { id: 1, entry: 0, orbit: Orbit::Center });
    let mut i: usize = 0;
    while i < satellites
        invariant
            i <= satellites,
            satellites + moons < u32::MAX,
            r@.len() == 1 + i,
            forall|k: int| 0 <= k < r@.len() ==>
                #[trigger] r@[k] == placement_at(satellites as nat, host as nat, moons as nat, k as nat),
        decreases satellites - i,
    {
        r.push(Placement {
            id: (i + 2) as u32,
            entry: i,
            orbit: Orbit::Around { host: 0, slot: i, count: satellites, half_turn: false },
        });
        i = i + 1;
    }
    let host_index: usize = 1 + host;
    let mut j: usize = 0;
    while j < moons
        invariant
            j <= moons,
            host_index == 1 + host,
            satellites + moons < u32::MAX,
            r@.len() == 1 + satellites + j,
            forall|k: int| 0 <= k < r@.len() ==>
                #[trigger] r@[k] == placement_at(satellites as nat, host as nat, moons as nat, k as nat),
        decreases moons - j,
    {
        let id: u32 = (r.len() + 1) as u32;
        r.push(Placement {
            id,
            entry: j,
            orbit: Orbit::Around { host: host_index, slot: j, count: moons, half_turn: true },
        });
        j = j + 1;
    }
    assert(r@ =~= system_layout_spec(satellites as nat, host as nat, moons as nat));
    r
}

/// Ids of the initial configuration are distinct: the body at index `k`
/// carries id `k + 1`.
pub proof fn layout_ids_unique(satellites: nat, host: nat, moons: nat)
    requires
        satellites + moons < u32::MAX,
    ensures
        forall|k: nat| k < 1 + satellites + moons ==>
            (#[trigger] placement_at(satellites, host, moons, k)).id == k + 1,
        forall|a: nat, b: nat|
            a < b < 1 + satellites + moons ==> #[trigger] placement_at(satellites, host, moons, a).id
                != #[trigger] placement_at(satellites, host, moons, b).id,
{
}

/// Every body of the initial configuration orbits a body that comes before
/// it, so the bodies can be built in list order, each from bodies already
/// built.
pub proof fn layout_hosts_come_first(satellites: nat, host: nat, moons: nat)
    requires
        host < satellites,
    ensures
        forall|k: nat| k < 1 + satellites + moons ==>
            match #[trigger] placement_at(satellites, host, moons, k).orbit {
                Orbit::Center => k == 0,
                Orbit::Around { host: h, .. } => h < k,
            },
{
}

} // verus!
