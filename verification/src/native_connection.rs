//! The connection the net game holds, for a build with profile data: the
//! server's address, host name and port.

use vstd::prelude::*;
use crate::bits::{le_bytes, le_value, lemma_le_bytes_len, lemma_le_value_le_bytes};
use crate::bitstream::le_bytes_of;
use crate::error::DirectClientError;
use crate::label_reads::{NativeReader, offset_by};
use crate::memory::{MemoryWrite, ProcessMemory, wrote};
use vstd::arithmetic::power2::pow2;
use crate::native_ui::sized_singleton_spec;
use crate::local_reads::function_target_spec;
use crate::r1_reads::{non_null_at, resolve_singleton};
use crate::label_reads::non_null;
use crate::r1_textdraw_edits::{edits_of, writes_view};
use crate::r1_ui::{padded_bytes, zero_padded};
use crate::text::{contains_byte, has_byte};

verus! {

/// The server the client is connected to.
#[derive(Clone, Debug, PartialEq, Eq)]
pub struct ServerInfoSnapshot {
    pub address: Vec<u8>,
    pub hostname: Vec<u8>,
    pub port: u16,
}

/// A port field: a 32-bit value that must be a non-zero 16-bit number.
pub open spec fn port_of(v: u32) -> Option<u16> {
    let s = v as i32;
    if 0 < s <= 0xFFFF {
        Some(s as u16)
    } else {
        None
    }
}

/// A text that must not be empty.
pub open spec fn non_empty(t: Option<Seq<u8>>) -> Option<Seq<u8>> {
    match t {
        Some(s) => if s.len() > 0 {
            Some(s)
        } else {
            None
        },
        None => None,
    }
}

impl NativeReader {
    /// The net game, readable through the end of its host name.
    pub open spec fn connection_net_game_spec(&self, mem: &ProcessMemory) -> Option<usize> {
        let n = self.spec.net_game;
        sized_singleton_spec(
            mem,
            self.module_base,
            n.singleton_rva.0,
            n.hostname_offset.0 + n.host_string_capacity.0,
        )
    }

    /// The net game, readable through the end of its host name.
    pub fn connection_net_game(&self, mem: &ProcessMemory) -> (r: Option<usize>)
        ensures
            r == self.connection_net_game_spec(mem),
    {
        let n = self.spec.net_game;
        match offset_by(n.hostname_offset.0, n.host_string_capacity.0) {
            Some(minimum) => resolve_singleton(mem, self.module_base, n.singleton_rva.0, minimum),
            None => None,
        }
    }

    /// The server's address and host name, each non-empty and terminated
    /// within the profile's host-string capacity, and its non-zero port.
    pub fn server_info(&self, mem: &ProcessMemory) -> (r: Result<ServerInfoSnapshot, DirectClientError>)
        ensures
            match self.connection_net_game_spec(mem) {
                None => r == Err::<ServerInfoSnapshot, DirectClientError>(DirectClientError::NotReady),
                Some(g) => {
                    let n = self.spec.net_game;
                    let cap = n.host_string_capacity.0 as int;
                    match (
                        non_empty(mem.c_string(g + n.host_address_offset.0, cap)),
                        non_empty(mem.c_string(g + n.hostname_offset.0, cap)),
                        mem.u32_at(g + n.port_offset.0),
                    ) {
                        (Some(address), Some(hostname), Some(p)) => match port_of(p) {
                            Some(port) => (r matches Ok(s) && s.address@ == address && s.hostname@
                                == hostname && s.port == port),
                            None => r == Err::<ServerInfoSnapshot, DirectClientError>(
                                DirectClientError::NotReady,
                            ),
                        },
                        _ => r == Err::<ServerInfoSnapshot, DirectClientError>(DirectClientError::NotReady),
                    }
                },
            },
    {
        let n = self.spec.net_game;
        let g = match self.connection_net_game(mem) {
            Some(g) => g,
            None => {
                return Err(DirectClientError::NotReady);
            },
        };
        let cap = n.host_string_capacity.0;
        let address = match offset_by(g, n.host_address_offset.0) {
            Some(a) => mem.read_c_string(a, cap),
            None => None,
        };
        let address = match address {
            Some(a) => if a.len() > 0 {
                a
            } else {
                return Err(DirectClientError::NotReady);
            },
            None => {
                return Err(DirectClientError::NotReady);
            },
        };
        let hostname = match offset_by(g, n.hostname_offset.0) {
            Some(a) => mem.read_c_string(a, cap),
            None => None,
        };
        let hostname = match hostname {
            Some(h) => if h.len() > 0 {
                h
            } else {
                return Err(DirectClientError::NotReady);
            },
            None => {
                return Err(DirectClientError::NotReady);
            },
        };
        let raw = match offset_by(g, n.port_offset.0) {
            Some(a) => mem.read_u32(a),
            None => None,
        };
        match raw {
            Some(v) => {
                let s = v as i32;
                if 0 < s && s <= 0xFFFF {
                    Ok(ServerInfoSnapshot { address, hostname, port: s as u16 })
                } else {
                    Err(DirectClientError::NotReady)
                }
            },
            None => Err(DirectClientError::NotReady),
        }
    }
}

/// A server to connect to: an address that is not empty, is shorter than
/// the host-string capacity and holds no zero byte, and a port that is not
/// zero.
pub open spec fn valid_server(address: Seq<u8>, capacity: int, port: u16) -> bool {
    address.len() > 0 && address.len() < capacity && !has_byte(address, 0) && port != 0
}

impl NativeReader {
    /// The writes that point the net game at a new server: its address,
    /// zero-padded to the host-string capacity; its port; and the
    /// connecting state, in the profile's encoding. Every field is checked
    /// before anything is planned: a bad address or port, a state the
    /// profile cannot encode, a missing net game or a field past the end of
    /// the address space plans nothing.
    pub open spec fn connect_writes_spec(&self, mem: &ProcessMemory, address: Seq<u8>, port: u16) -> Result<
        Seq<(int, Seq<u8>)>,
        DirectClientError,
    > {
        let n = self.spec.net_game;
        let cap = n.host_string_capacity.0 as int;
        if !valid_server(address, cap, port) {
            Err(DirectClientError::NotReady)
        } else {
            match self.spec.strategies.game_state_codec.spec_encode(9) {
                None => Err(DirectClientError::NotReady),
                Some(native) => match self.connection_net_game_spec(mem) {
                    None => Err(DirectClientError::NotReady),
                    Some(g) => if g + n.host_address_offset.0 > usize::MAX || g + n.port_offset.0
                        > usize::MAX || g + n.game_state_offset.0 > usize::MAX {
                        Err(DirectClientError::NotReady)
                    } else {
                        Ok(
                            seq![
                                (g + n.host_address_offset.0, zero_padded(address, cap)),
                                (g + n.port_offset.0, le_bytes(port as nat, 4)),
                                (g + n.game_state_offset.0, le_bytes(native as u32 as nat, 4)),
                            ],
                        )
                    },
                },
            }
        }
    }

    /// The write that sets the public connection state `state`, in the
    /// profile's encoding; a state the profile cannot encode plans nothing.
    pub open spec fn game_state_writes_spec(&self, mem: &ProcessMemory, state: i32) -> Result<
        Seq<(int, Seq<u8>)>,
        DirectClientError,
    > {
        let n = self.spec.net_game;
        match self.spec.strategies.game_state_codec.spec_encode(state) {
            None => Err(DirectClientError::NotReady),
            Some(native) => match self.connection_net_game_spec(mem) {
                None => Err(DirectClientError::NotReady),
                Some(g) => if g + n.game_state_offset.0 > usize::MAX {
                    Err(DirectClientError::NotReady)
                } else {
                    Ok(seq![(g + n.game_state_offset.0, le_bytes(native as u32 as nat, 4))])
                },
            },
        }
    }

    /// The writes that point the net game at the server `address`:`port`.
    pub fn connect_writes(&self, mem: &ProcessMemory, address: &[u8], port: u16) -> (r: Result<
        Vec<MemoryWrite>,
        DirectClientError,
    >)
        ensures
            edits_of(r) == self.connect_writes_spec(mem, address@, port),
    {
        let n = self.spec.net_game;
        let cap = n.host_string_capacity.0;
        if address.len() == 0 || address.len() >= cap || contains_byte(address, 0) || port == 0 {
            return Err(DirectClientError::NotReady);
        }
        let native = match self.spec.strategies.game_state_codec.encode(9) {
            Some(v) => v,
            None => {
                return Err(DirectClientError::NotReady);
            },
        };
        let g = match self.connection_net_game(mem) {
            Some(g) => g,
            None => {
                return Err(DirectClientError::NotReady);
            },
        };
        let (host, port_field, state_field) = match (
            offset_by(g, n.host_address_offset.0),
            offset_by(g, n.port_offset.0),
            offset_by(g, n.game_state_offset.0),
        ) {
            (Some(h), Some(p), Some(s)) => (h, p, s),
            _ => {
                return Err(DirectClientError::NotReady);
            },
        };
        let mut writes: Vec<MemoryWrite> = Vec::new();
        writes.push(MemoryWrite { address: host, bytes: padded_bytes(address, cap) });
        writes.push(MemoryWrite { address: port_field, bytes: le_bytes_of(port as u32, 4) });
        writes.push(MemoryWrite { address: state_field, bytes: le_bytes_of(native as u32, 4) });
        assert(writes_view(writes@) =~= seq![
            (host as int, zero_padded(address@, cap as int)),
            (port_field as int, le_bytes(port as nat, 4)),
            (state_field as int, le_bytes(native as u32 as nat, 4)),
        ]);
        Ok(writes)
    }

    /// The write that sets the public connection state `state`.
    pub fn game_state_writes(&self, mem: &ProcessMemory, state: i32) -> (r: Result<
        Vec<MemoryWrite>,
        DirectClientError,
    >)
        ensures
            edits_of(r) == self.game_state_writes_spec(mem, state),
    {
        let native = match self.spec.strategies.game_state_codec.encode(state) {
            Some(v) => v,
            None => {
                return Err(DirectClientError::NotReady);
            },
        };
        let g = match self.connection_net_game(mem) {
            Some(g) => g,
            None => {
                return Err(DirectClientError::NotReady);
            },
        };
        match offset_by(g, self.spec.net_game.game_state_offset.0) {
            Some(a) => {
                let mut writes: Vec<MemoryWrite> = Vec::new();
                writes.push(MemoryWrite { address: a, bytes: le_bytes_of(native as u32, 4) });
                assert(writes_view(writes@) =~= seq![(a as int, le_bytes(native as u32 as nat, 4))]);
                Ok(writes)
            },
            None => Err(DirectClientError::NotReady),
        }
    }

    /// The RakPeer object in front of the RakClient interface at
    /// `rak_client`: the profile's RakPeer size below it, with that many
    /// bytes and one more readable.
    pub fn rakpeer_address(&self, mem: &ProcessMemory, rak_client: usize) -> (r: Result<usize, DirectClientError>)
        ensures
            r == (if rak_client < self.spec.handles.rakpeer_size.0 || rak_client
                == self.spec.handles.rakpeer_size.0 || self.spec.handles.rakpeer_size.0 + 1 > usize::MAX
                || !mem.readable(rak_client - self.spec.handles.rakpeer_size.0, self.spec.handles.rakpeer_size.0 + 1) {
                Err(DirectClientError::NotReady)
            } else {
                Ok((rak_client - self.spec.handles.rakpeer_size.0) as usize)
            }),
    {
        let size = self.spec.handles.rakpeer_size.0;
        if rak_client <= size || size == usize::MAX {
            return Err(DirectClientError::NotReady);
        }
        let peer = rak_client - size;
        if mem.readable_range(peer, size + 1) {
            Ok(peer)
        } else {
            Err(DirectClientError::NotReady)
        }
    }
}


/// A 32-bit value written over four readable bytes reads back.
proof fn lemma_u32_reads_back(before: &ProcessMemory, after: &ProcessMemory, field: int, v: nat)
    requires
        v < 0x1_0000_0000,
        before.readable(field, 4),
        wrote(before, after, field, le_bytes(v, 4)),
    ensures
        after.u32_at(field) == Some(v as u32),
{
    lemma_le_bytes_len(v, 4);
    lemma_le_value_le_bytes(v, 4);
    vstd::arithmetic::power2::lemma2_to64();
    assert(after.readable(field, 4)) by {
        assert forall|k: int| 0 <= k < 4 implies (#[trigger] after.byte_at(field + k)) is Some by {
            assert(before.byte_at(field + k) is Some);
        }
    }
    assert(after.bytes(field, 4) =~= le_bytes(v, 4)) by {
        assert forall|k: int| 0 <= k < 4 implies after.bytes(field, 4)[k] == le_bytes(v, 4)[k] by {
            assert(before.byte_at(field + k) is Some);
            assert(after.byte_at(field + k) == Some(le_bytes(v, 4)[k]));
        }
    }
    assert(pow2(32) == 0x1_0000_0000);
    assert(8 * 4nat == 32nat);
    assert(v % pow2(32) == v) by {
        vstd::arithmetic::div_mod::lemma_small_mod(v, pow2(32));
    }
    assert(le_value(le_bytes(v, 4)) == v);
}

/// A text without a zero byte, stored from `addr` on and followed by a
/// zero byte within `max` bytes, reads back from position `i` on.
proof fn lemma_c_string_reads_back(mem: &ProcessMemory, addr: int, text: Seq<u8>, i: int, max: int)
    requires
        0 <= i <= text.len() < max,
        !has_byte(text, 0),
        forall|k: int| 0 <= k < text.len() ==> #[trigger] mem.u8_at(addr + k) == Some(text[k]),
        mem.u8_at(addr + text.len()) == Some(0u8),
    ensures
        mem.c_string_from(addr, i, max, text.take(i)) == Some(text),
    decreases text.len() - i,
{
    if i < text.len() {
        assert(mem.u8_at(addr + i) == Some(text[i]));
        if text[i] == 0 {
            assert(has_byte(text, 0));
        }
        assert(text.take(i).push(text[i]) =~= text.take(i + 1));
        lemma_c_string_reads_back(mem, addr, text, i + 1, max);
    } else {
        assert(text.take(i) =~= text);
    }
}

/// What a connect plan writes reads back: once its three writes (the
/// address, the port and the state) are applied in order to memory where
/// the three fields are readable and lie apart, the address field holds the
/// address as text within the host-string capacity, the port field the
/// port, and the state field the connecting state in the profile's
/// encoding.
pub proof fn connect_plans_read_back(
    reader: NativeReader,
    before: &ProcessMemory,
    first: &ProcessMemory,
    second: &ProcessMemory,
    after: &ProcessMemory,
    address: Seq<u8>,
    port: u16,
    ws: Seq<(int, Seq<u8>)>,
)
    requires
        reader.connect_writes_spec(before, address, port) == Ok::<Seq<(int, Seq<u8>)>, DirectClientError>(ws),
        before.readable(ws[0].0, ws[0].1.len() as int),
        before.readable(ws[1].0, 4),
        before.readable(ws[2].0, 4),
        ws[0].0 + ws[0].1.len() <= ws[1].0 || ws[1].0 + 4 <= ws[0].0,
        ws[0].0 + ws[0].1.len() <= ws[2].0 || ws[2].0 + 4 <= ws[0].0,
        ws[1].0 + 4 <= ws[2].0 || ws[2].0 + 4 <= ws[1].0,
        wrote(before, first, ws[0].0, ws[0].1),
        wrote(first, second, ws[1].0, ws[1].1),
        wrote(second, after, ws[2].0, ws[2].1),
    ensures
        after.c_string(ws[0].0, reader.spec.net_game.host_string_capacity.0 as int) == Some(address),
        after.u32_at(ws[1].0) == Some(port as u32),
        port_of(port as u32) == Some(port),
        reader.spec.strategies.game_state_codec.spec_encode(9) matches Some(native) && after.u32_at(ws[2].0)
            == Some(native as u32),
{
    let n = reader.spec.net_game;
    let cap = n.host_string_capacity.0 as int;
    let native = reader.spec.strategies.game_state_codec.spec_encode(9)->0;
    let host = ws[0].0;
    let text = zero_padded(address, cap);
    assert(ws[0].1 == text);
    assert(text.len() == cap);
    assert(ws[1].1 == le_bytes(port as nat, 4));
    assert(ws[2].1 == le_bytes(native as u32 as nat, 4));
    lemma_le_bytes_len(port as nat, 4);
    lemma_le_bytes_len(native as u32 as nat, 4);
    // The port and state writes leave the address field as the first write left it.
    assert forall|k: int| 0 <= k < cap implies #[trigger] after.byte_at(host + k) == first.byte_at(host + k) by {
        assert(second.byte_at(host + k) == first.byte_at(host + k));
        assert(after.byte_at(host + k) == second.byte_at(host + k));
    }
    assert forall|k: int| 0 <= k < cap implies #[trigger] first.byte_at(host + k) == Some(text[k]) by {
        assert(before.byte_at(host + k) is Some);
    }
    assert forall|k: int| 0 <= k < cap implies #[trigger] after.u8_at(host + k) == Some(text[k]) by {
        assert(after.byte_at(host + k) == Some(text[k]));
        assert(after.readable(host + k, 1)) by {
            assert(after.byte_at(host + k + 0) is Some);
        }
    }
    assert forall|k: int| 0 <= k < address.len() implies #[trigger] after.u8_at(host + k) == Some(address[k]) by {
        assert(after.u8_at(host + k) == Some(text[k]));
    }
    assert(after.u8_at(host + address.len()) == Some(text[address.len() as int]));
    assert(host != 0) by {
        assert(before.readable(host, cap));
    }
    lemma_c_string_reads_back(after, host, address, 0, cap);
    assert(address.take(0) =~= Seq::<u8>::empty());
    // The port field: written second, left alone by the state write.
    lemma_u32_reads_back(first, second, ws[1].0, port as nat);
    assert forall|k: int| 0 <= k < 4 implies #[trigger] first.byte_at(ws[1].0 + k) == before.byte_at(ws[1].0 + k) by {
        assert(first.byte_at(ws[1].0 + k) == before.byte_at(ws[1].0 + k));
    }
    assert(first.readable(ws[1].0, 4)) by {
        assert forall|k: int| 0 <= k < 4 implies (#[trigger] first.byte_at(ws[1].0 + k)) is Some by {
            assert(before.byte_at(ws[1].0 + k) is Some);
        }
    }
    assert(after.bytes(ws[1].0, 4) =~= second.bytes(ws[1].0, 4)) by {
        assert forall|k: int| 0 <= k < 4 implies after.bytes(ws[1].0, 4)[k] == second.bytes(ws[1].0, 4)[k] by {
            assert(after.byte_at(ws[1].0 + k) == second.byte_at(ws[1].0 + k));
        }
    }
    assert(after.readable(ws[1].0, 4) == second.readable(ws[1].0, 4)) by {
        assert forall|k: int| 0 <= k < 4 implies #[trigger] after.byte_at(ws[1].0 + k) == second.byte_at(ws[1].0 + k) by {
            assert(after.byte_at(ws[1].0 + k) == second.byte_at(ws[1].0 + k));
        }
    }
    // The state field: written last over bytes the earlier writes left readable.
    assert(second.readable(ws[2].0, 4)) by {
        assert forall|k: int| 0 <= k < 4 implies (#[trigger] second.byte_at(ws[2].0 + k)) is Some by {
            assert(before.byte_at(ws[2].0 + k) is Some);
            assert(first.byte_at(ws[2].0 + k) == before.byte_at(ws[2].0 + k));
            assert(second.byte_at(ws[2].0 + k) == first.byte_at(ws[2].0 + k));
        }
    }
    lemma_u32_reads_back(second, after, ws[2].0, native as u32 as nat);
}


impl NativeReader {
    /// The RakClient's disconnect function, found in its vtable at the
    /// profile's slot: the client must not be null, its vtable pointer not
    /// null, the vtable readable through the slot, and the function at the
    /// slot not null and readable.
    pub open spec fn disconnect_target_spec(&self, mem: &ProcessMemory, rak_client: usize) -> Result<
        usize,
        DirectClientError,
    > {
        let slot = self.spec.net_game.rak_client_disconnect_vtable_slot * 4;
        if rak_client == 0 || slot > usize::MAX {
            Err(DirectClientError::NotReady)
        } else {
            match non_null_at(mem, rak_client as int) {
                None => Err(DirectClientError::NotReady),
                Some(vtable) => if vtable + slot > usize::MAX || !mem.readable(vtable as int, slot + 4) {
                    Err(DirectClientError::NotReady)
                } else {
                    match non_null_at(mem, vtable + slot) {
                        Some(f) => if mem.readable(f as int, 1) {
                            Ok(f)
                        } else {
                            Err(DirectClientError::NotReady)
                        },
                        None => Err(DirectClientError::NotReady),
                    }
                },
            }
        }
    }

    /// The RakClient's disconnect function, called first when the client
    /// disconnects with a reason.
    pub fn disconnect_target(&self, mem: &ProcessMemory, rak_client: usize) -> (r: Result<usize, DirectClientError>)
        ensures
            r == self.disconnect_target_spec(mem, rak_client),
    {
        let slot_index = self.spec.net_game.rak_client_disconnect_vtable_slot;
        if rak_client == 0 || slot_index > usize::MAX / 4 {
            return Err(DirectClientError::NotReady);
        }
        let slot = slot_index * 4;
        let vtable = match non_null(mem, rak_client) {
            Some(v) => v,
            None => {
                return Err(DirectClientError::NotReady);
            },
        };
        let field = match offset_by(vtable, slot) {
            Some(f) => f,
            None => {
                return Err(DirectClientError::NotReady);
            },
        };
        if slot > usize::MAX - 4 || !mem.readable_range(vtable, slot + 4) {
            proof {
                if slot > usize::MAX - 4 {
                    assert(!mem.readable(vtable as int, slot + 4));
                }
            }
            return Err(DirectClientError::NotReady);
        }
        match non_null(mem, field) {
            Some(f) => if mem.readable_range(f, 1) {
                Ok(f)
            } else {
                Err(DirectClientError::NotReady)
            },
            None => Err(DirectClientError::NotReady),
        }
    }

    /// The net game's shutdown-for-restart function and the net game,
    /// called once the RakClient has disconnected.
    pub fn shutdown_call(&self, mem: &ProcessMemory) -> (r: Result<(usize, usize), DirectClientError>)
        ensures
            r == (match self.connection_net_game_spec(mem) {
                None => Err(DirectClientError::NotReady),
                Some(g) => match function_target_spec(mem, self.module_base, self.spec.net_game.shutdown_for_restart_rva.0) {
                    Err(e) => Err(e),
                    Ok(t) => Ok((t, g)),
                },
            }),
    {
        let g = match self.connection_net_game(mem) {
            Some(g) => g,
            None => {
                return Err(DirectClientError::NotReady);
            },
        };
        match self.function_target(mem, self.spec.net_game.shutdown_for_restart_rva.0) {
            Ok(t) => Ok((t, g)),
            Err(e) => Err(e),
        }
    }
}

} // verus!
