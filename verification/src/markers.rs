//! The markers-sync packet: the server's positions of the players' map
//! markers, which stand for players that are streamed out.
//!
//! Layout after the packet id: a 32-bit record count, then per record a 16-bit
//! player id, one "active" bit and, for an active record, three 16-bit
//! coordinates. Fewer than eight bits may follow the last record.

use vstd::prelude::*;
use crate::bits::le_value;
use crate::bitstream::{BitStream, bits_bytes};
use crate::cache::{BackendState, MAX_SAMP_PLAYERS, MarkerPosition};

verus! {

/// The packet id of a markers-sync packet.
pub const MARKERS_SYNC_PACKET_ID: u8 = 208;

/// One record of a markers-sync packet: a player and, when the record is
/// active, the position of its marker.
#[derive(Clone, Copy, Debug, PartialEq, Eq, Structural)]
pub struct MarkerUpdate {
    pub id: u16,
    pub position: Option<MarkerPosition>,
}

pub open spec fn u16_bits(s: Seq<bool>, p: int) -> u16 {
    le_value(bits_bytes(s.subrange(p, p + 16))) as u16
}

pub open spec fn i16_bits(s: Seq<bool>, p: int) -> i16 {
    u16_bits(s, p) as i16
}

pub open spec fn i32_bits(s: Seq<bool>, p: int) -> i32 {
    le_value(bits_bytes(s.subrange(p, p + 32))) as u32 as i32
}

/// The record at bit `q`, and the bit after it.
pub open spec fn marker_record(s: Seq<bool>, q: int) -> Option<(MarkerUpdate, int)> {
    if q < 0 || q + 17 > s.len() {
        None
    } else if !s[q + 16] {
        Some((MarkerUpdate { id: u16_bits(s, q), position: None }, q + 17))
    } else if q + 65 > s.len() {
        None
    } else {
        Some(
            (
                MarkerUpdate {
                    id: u16_bits(s, q),
                    position: Some(
                        MarkerPosition {
                            x: i16_bits(s, q + 17),
                            y: i16_bits(s, q + 33),
                            z: i16_bits(s, q + 49),
                        },
                    ),
                },
                q + 65,
            ),
        )
    }
}

/// The first `n` records from bit `p`, and the bit after them.
pub open spec fn marker_records(s: Seq<bool>, p: int, n: nat) -> Option<(Seq<MarkerUpdate>, int)>
    decreases n,
{
    if n == 0 {
        Some((Seq::empty(), p))
    } else {
        match marker_records(s, p, (n - 1) as nat) {
            None => None,
            Some((us, q)) => match marker_record(s, q) {
                None => None,
                Some((u, q2)) => Some((us.push(u), q2)),
            },
        }
    }
}

/// The records of a markers-sync payload whose unread bits start at `p`: the
/// count must be positive and below the player limit, every record must be
/// whole, and fewer than eight bits may remain.
pub open spec fn parse_markers(s: Seq<bool>, p: int) -> Option<Seq<MarkerUpdate>> {
    if p < 0 || p + 32 > s.len() {
        None
    } else {
        let count = i32_bits(s, p);
        if count <= 0 || count >= MAX_SAMP_PLAYERS {
            None
        } else {
            match marker_records(s, p + 32, count as nat) {
                None => None,
                Some((us, q)) => if s.len() - q >= 8 {
                    None
                } else {
                    Some(us)
                },
            }
        }
    }
}

/// The marker positions after the updates, in order: an active record stores
/// its position; an inactive record keeps the last active one.
pub open spec fn apply_markers(
    positions: Seq<Option<MarkerPosition>>,
    us: Seq<MarkerUpdate>,
) -> Seq<Option<MarkerPosition>>
    decreases us.len(),
{
    if us.len() == 0 {
        positions
    } else {
        let prev = apply_markers(positions, us.drop_last());
        let u = us.last();
        match u.position {
            Some(p) => if (u.id as int) < prev.len() {
                prev.update(u.id as int, Some(p))
            } else {
                prev
            },
            None => prev,
        }
    }
}

/// The marker positions after a packet with id `packet_id` and payload bits
/// `s` read from `p`: a packet of another id, or one that does not parse,
/// changes nothing.
pub open spec fn markers_after(
    positions: Seq<Option<MarkerPosition>>,
    packet_id: u8,
    s: Seq<bool>,
    p: int,
) -> Seq<Option<MarkerPosition>> {
    if packet_id != MARKERS_SYNC_PACKET_ID {
        positions
    } else {
        match parse_markers(s, p) {
            Some(us) => apply_markers(positions, us),
            None => positions,
        }
    }
}

/// Once a record fails to parse, no longer run of records parses.
proof fn lemma_records_fail_onward(s: Seq<bool>, p: int, n: nat, m: nat)
    requires
        n <= m,
        marker_records(s, p, n) is None,
    ensures
        marker_records(s, p, m) is None,
    decreases m - n,
{
    if n < m {
        lemma_records_fail_onward(s, p, n, (m - 1) as nat);
    }
}

/// An inactive record keeps the player's last active position: it changes no
/// marker position.
pub proof fn inactive_markers_keep_the_last_position(
    positions: Seq<Option<MarkerPosition>>,
    us: Seq<MarkerUpdate>,
    id: u16,
)
    ensures
        apply_markers(positions, us.push(MarkerUpdate { id, position: None })) == apply_markers(
            positions,
            us,
        ),
{
    assert(us.push(MarkerUpdate { id, position: None }).drop_last() =~= us);
}

/// Applying updates keeps the number of marker slots.
pub proof fn marker_updates_keep_the_slot_count(
    positions: Seq<Option<MarkerPosition>>,
    us: Seq<MarkerUpdate>,
)
    ensures
        apply_markers(positions, us).len() == positions.len(),
    decreases us.len(),
{
    if us.len() > 0 {
        marker_updates_keep_the_slot_count(positions, us.drop_last());
    }
}

/// Only an active record for a player changes that player's marker position.
pub proof fn markers_change_only_for_active_records(
    positions: Seq<Option<MarkerPosition>>,
    us: Seq<MarkerUpdate>,
    id: int,
)
    requires
        0 <= id < positions.len(),
        forall|k: int| 0 <= k < us.len() ==> !((#[trigger] us[k]).id == id && us[k].position is Some),
    ensures
        apply_markers(positions, us)[id] == positions[id],
    decreases us.len(),
{
    if us.len() > 0 {
        let prefix = us.drop_last();
        assert forall|k: int| 0 <= k < prefix.len() implies !((#[trigger] prefix[k]).id == id
            && prefix[k].position is Some) by {
            assert(prefix[k] == us[k]);
        }
        markers_change_only_for_active_records(positions, prefix, id);
        marker_updates_keep_the_slot_count(positions, prefix);
        assert(us.last() == us[us.len() - 1]);
    }
}

/// The last record of a run, when active, sets its player's position.
pub proof fn the_last_active_marker_wins(
    positions: Seq<Option<MarkerPosition>>,
    us: Seq<MarkerUpdate>,
    u: MarkerUpdate,
)
    requires
        u.position is Some,
        (u.id as int) < positions.len(),
    ensures
        apply_markers(positions, us.push(u))[u.id as int] == u.position,
{
    assert(us.push(u).drop_last() =~= us);
    marker_updates_keep_the_slot_count(positions, us);
}

/// Reads one record from the stream.
fn read_marker_record(stream: &mut BitStream) -> (r: Option<MarkerUpdate>)
    requires
        old(stream).pos() >= 0,
    ensures
        final(stream).bits() == old(stream).bits(),
        final(stream).pos() >= 0,
        match marker_record(old(stream).bits(), old(stream).pos()) {
            Some((u, q)) => r == Some(u) && final(stream).pos() == q,
            None => r is None,
        },
{
    let id = match stream.read_u16() {
        Ok(v) => v,
        Err(_) => {
            return None;
        },
    };
    let active = match stream.read_bool() {
        Ok(v) => v,
        Err(_) => {
            return None;
        },
    };
    if !active {
        return Some(MarkerUpdate { id, position: None });
    }
    let x = match stream.read_i16() {
        Ok(v) => v,
        Err(_) => {
            return None;
        },
    };
    let y = match stream.read_i16() {
        Ok(v) => v,
        Err(_) => {
            return None;
        },
    };
    let z = match stream.read_i16() {
        Ok(v) => v,
        Err(_) => {
            return None;
        },
    };
    Some(MarkerUpdate { id, position: Some(MarkerPosition { x, y, z }) })
}

/// Parses the records of a markers-sync payload.
pub fn parse_marker_sync(payload: &BitStream) -> (r: Option<Vec<MarkerUpdate>>)
    ensures
        match parse_markers(payload.bits(), payload.pos()) {
            Some(us) => r matches Some(v) && v@ == us,
            None => r is None,
        },
{
    proof {
        payload.lemma_pos_nonneg();
    }
    let ghost s = payload.bits();
    let ghost p = payload.pos();
    let mut stream = payload.clone_stream();
    let count = match stream.read_i32() {
        Ok(c) => c,
        Err(_) => {
            return None;
        },
    };
    if count <= 0 || count >= MAX_SAMP_PLAYERS as i32 {
        return None;
    }
    let mut updates: Vec<MarkerUpdate> = Vec::new();
    let mut i: i32 = 0;
    while i < count
        invariant
            0 <= i <= count,
            count == i32_bits(s, p),
            s == payload.bits(),
            p == payload.pos(),
            stream.bits() == s,
            stream.pos() >= 0,
            p >= 0,
            p + 32 <= s.len(),
            marker_records(s, p + 32, i as nat) == Some((updates@, stream.pos())),
        decreases count - i,
    {
        match read_marker_record(&mut stream) {
            Some(u) => {
                updates.push(u);
            },
            None => {
                assert(marker_records(s, p + 32, (i + 1) as nat) is None);
                proof {
                    lemma_records_fail_onward(s, p + 32, (i + 1) as nat, count as nat);
                }
                return None;
            },
        }
        i = i + 1;
    }
    if stream.remaining_bits() >= 8 {
        return None;
    }
    Some(updates)
}

impl BackendState {
    /// Captures the active marker positions of an accepted markers-sync packet.
    /// An inactive record keeps the player's last active position.
    pub fn capture_marker_sync(&mut self, packet_id: u8, payload: &BitStream)
        ensures
            final(self).same_but_markers(old(self)),
            final(self).marker_sync_positions@ == markers_after(
                old(self).marker_sync_positions@,
                packet_id,
                payload.bits(),
                payload.pos(),
            ),
    {
        if packet_id != MARKERS_SYNC_PACKET_ID {
            return;
        }
        let updates = match parse_marker_sync(payload) {
            Some(v) => v,
            None => {
                return;
            },
        };
        let ghost start = self.marker_sync_positions@;
        let mut k: usize = 0;
        while k < updates.len()
            invariant
                k <= updates@.len(),
                self.same_but_markers(old(self)),
                start == old(self).marker_sync_positions@,
                self.marker_sync_positions@ == apply_markers(start, updates@.take(k as int)),
            decreases updates@.len() - k,
        {
            proof {
                assert(updates@.take(k + 1).drop_last() =~= updates@.take(k as int));
            }
            let u = updates[k];
            match u.position {
                Some(p) => {
                    if (u.id as usize) < self.marker_sync_positions.len() {
                        self.marker_sync_positions.set(u.id as usize, Some(p));
                    }
                },
                None => {},
            }
            k = k + 1;
        }
        assert(updates@.take(updates@.len() as int) =~= updates@);
    }
}

} // verus!
