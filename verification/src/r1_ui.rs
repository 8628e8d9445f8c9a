//! R1 user-interface state: reads of the scoreboard, cursor, dialog and chat
//! singletons, and the field writes of their setters.

use vstd::prelude::*;
use crate::bits::le_bytes;
use crate::bitstream::le_bytes_of;
use crate::commands::{extend_bytes, extend_zeros};
use crate::error::DirectClientError;
use crate::memory::{MemoryWrite, ProcessMemory, wrote};
use crate::bits::{le_value, lemma_le_bytes_len, lemma_le_value_le_bytes};
use vstd::arithmetic::power2::pow2;
use crate::r1_addresses::{
    CHAT_SINGLETON_RVA, DIALOG_SINGLETON_RVA, GAME_SINGLETON_RVA, SCOREBOARD_SINGLETON_RVA,
};
use crate::r1_layout::{
    CHAT_DISPLAY_MODE_OFFSET, CHAT_ENTRIES_OFFSET, CHAT_ENTRY_PREFIX_CAPACITY,
    CHAT_ENTRY_PREFIX_COLOUR_OFFSET, CHAT_ENTRY_PREFIX_OFFSET, CHAT_ENTRY_SIZE,
    CHAT_ENTRY_TEXT_CAPACITY, CHAT_ENTRY_TEXT_COLOUR_OFFSET, CHAT_ENTRY_TEXT_OFFSET,
    DIALOG_LISTBOX_OFFSET, DIALOG_SERVER_SIDE_OFFSET, DIALOG_TEXT_OFFSET,
    DXUT_LISTBOX_ITEMS_OFFSET, DXUT_LISTBOX_ITEM_TEXT_CAPACITY, DXUT_LISTBOX_ITEM_TEXT_OFFSET,
    DXUT_LISTBOX_SELECTED_OFFSET, GAME_CURSOR_MODE_OFFSET, MAX_CHAT_ENTRIES,
    MAX_DIALOG_TEXT_BYTES, SCOREBOARD_ENABLED_OFFSET,
};
use crate::r1_reads::{i32_bool_at, non_null_at, pointer_at, singleton_spec};
use crate::r1_textdraw_edits::{edits_of, writes_view};
use crate::selection::R1ClientProfile;
use crate::text::{contains_byte, has_byte};

verus! {

/// Bytes `s` padded with zeros to `n` bytes.
pub open spec fn zero_padded(s: Seq<u8>, n: int) -> Seq<u8> {
    s + Seq::new((n - s.len()) as nat, |k: int| 0u8)
}

pub(crate) fn padded_bytes(s: &[u8], n: usize) -> (v: Vec<u8>)
    requires
        s@.len() <= n,
    ensures
        v@ == zero_padded(s@, n as int),
{
    let mut v: Vec<u8> = Vec::new();
    extend_bytes(&mut v, s);
    extend_zeros(&mut v, n - s.len());
    v
}

fn one_write(address: usize, bytes: Vec<u8>) -> (ws: Vec<MemoryWrite>)
    ensures
        writes_view(ws@) == seq![(address as int, bytes@)],
{
    let mut ws: Vec<MemoryWrite> = Vec::new();
    ws.push(MemoryWrite { address, bytes });
    assert(writes_view(ws@) =~= seq![(address as int, bytes@)]);
    ws
}

/// The text at a pointer stored at `slot`: empty for a null pointer.
pub open spec fn dialog_text_spec(mem: &ProcessMemory, base: usize) -> Result<Seq<u8>, DirectClientError> {
    match singleton_spec(mem, base, DIALOG_SINGLETON_RVA, 1) {
        None => Err(DirectClientError::NotReady),
        Some(dialog) => match pointer_at(mem, dialog + DIALOG_TEXT_OFFSET) {
            None => Err(DirectClientError::NotReady),
            Some(text) => if text == 0 {
                Ok(Seq::empty())
            } else {
                match mem.c_string(text as int, MAX_DIALOG_TEXT_BYTES + 1) {
                    Some(s) => Ok(s),
                    None => Err(DirectClientError::NotReady),
                }
            },
        },
    }
}

/// The text of item `index` of the dialog's list box.
pub open spec fn listbox_item_spec(mem: &ProcessMemory, base: usize, index: int) -> Result<
    Seq<u8>,
    DirectClientError,
> {
    match singleton_spec(mem, base, DIALOG_SINGLETON_RVA, 1) {
        None => Err(DirectClientError::NotReady),
        Some(dialog) => match non_null_at(mem, dialog + DIALOG_LISTBOX_OFFSET) {
            None => Err(DirectClientError::NotReady),
            Some(listbox) => match non_null_at(mem, listbox + DXUT_LISTBOX_ITEMS_OFFSET) {
                None => Err(DirectClientError::NotReady),
                Some(items) => match non_null_at(mem, items + index * 4) {
                    None => Err(DirectClientError::NotReady),
                    Some(item) => match mem.c_string(
                        item + DXUT_LISTBOX_ITEM_TEXT_OFFSET,
                        DXUT_LISTBOX_ITEM_TEXT_CAPACITY as int,
                    ) {
                        Some(s) => Ok(s),
                        None => Err(DirectClientError::NotReady),
                    },
                },
            },
        },
    }
}

fn checked_add(a: usize, b: usize) -> (r: Option<usize>)
    ensures
        a + b <= usize::MAX ==> r == Some((a + b) as usize),
        a + b > usize::MAX ==> r is None,
{
    if b <= usize::MAX - a {
        Some(a + b)
    } else {
        None
    }
}

fn non_null(mem: &ProcessMemory, addr: usize) -> (r: Option<usize>)
    ensures
        r == non_null_at(mem, addr as int),
{
    match mem.read_pointer(addr) {
        Some(p) => if p != 0 {
            Some(p)
        } else {
            None
        },
        None => None,
    }
}

/// The scoreboard reads back what its setter wrote: once the planned write is
/// applied, the scoreboard reads as open exactly when it was opened (the
/// written field lying apart from the slot that points to the scoreboard).
pub proof fn scoreboard_reads_back_its_write(
    before: &ProcessMemory,
    after: &ProcessMemory,
    base: usize,
    board: usize,
    open: bool,
)
    requires
        singleton_spec(before, base, SCOREBOARD_SINGLETON_RVA, 4) == Some(board),
        wrote(
            before,
            after,
            board + SCOREBOARD_ENABLED_OFFSET,
            le_bytes(if open { 1nat } else { 0nat }, 4),
        ),
        base + SCOREBOARD_SINGLETON_RVA + 4 <= board + SCOREBOARD_ENABLED_OFFSET || board
            + SCOREBOARD_ENABLED_OFFSET + 4 <= base + SCOREBOARD_SINGLETON_RVA,
    ensures
        singleton_spec(after, base, SCOREBOARD_SINGLETON_RVA, 4) == Some(board),
        i32_bool_at(after, board + SCOREBOARD_ENABLED_OFFSET) == Ok::<bool, DirectClientError>(open),
{
    let v: nat = if open { 1 } else { 0 };
    let field = board + SCOREBOARD_ENABLED_OFFSET;
    let slot = base + SCOREBOARD_SINGLETON_RVA;
    lemma_le_bytes_len(v, 4);
    lemma_le_value_le_bytes(v, 4);
    vstd::arithmetic::power2::lemma2_to64();
    assert forall|k: int| 0 <= k < 4 implies #[trigger] after.byte_at(slot + k) == before.byte_at(slot + k) by {
        assert(after.byte_at(slot + k) == before.byte_at(slot + k));
    }
    assert(after.bytes(slot, 4) =~= before.bytes(slot, 4));
    assert(after.readable(slot, 4) == before.readable(slot, 4));
    assert(after.readable(board as int, 4)) by {
        assert forall|k: int| 0 <= k < 4 implies (#[trigger] after.byte_at(board + k)) is Some by {
            assert(before.byte_at(board + k) is Some);
            assert(after.byte_at(board + k) == Some(le_bytes(v, 4)[k]));
        }
    }
    assert(after.bytes(field, 4) =~= le_bytes(v, 4)) by {
        assert forall|k: int| 0 <= k < 4 implies after.bytes(field, 4)[k] == le_bytes(v, 4)[k] by {
            assert(before.byte_at(field + k) is Some);
            assert(after.byte_at(field + k) == Some(le_bytes(v, 4)[k]));
        }
    }
    assert(after.readable(field, 4)) by {
        assert forall|k: int| 0 <= k < 4 implies (#[trigger] after.byte_at(field + k)) is Some by {
            assert(before.byte_at(board + k) is Some);
        }
    }
    assert(pow2(32) == 0x1_0000_0000);
    assert(le_value(le_bytes(v, 4)) == v % pow2(8 * 4));
    assert(8 * 4nat == 32nat);
    assert(v % pow2(32) == v) by {
        vstd::arithmetic::div_mod::lemma_small_mod(v, pow2(32));
    }
    assert(le_value(le_bytes(v, 4)) == v);
    assert(after.u32_at(field) == Some(v as u32));
}

impl R1ClientProfile {
    /// Whether the scoreboard is open.
    pub fn scoreboard_is_open(self, mem: &ProcessMemory) -> (r: Result<bool, DirectClientError>)
        ensures
            r == (match singleton_spec(mem, self.module_base, SCOREBOARD_SINGLETON_RVA, 4) {
                None => Err(DirectClientError::NotReady),
                Some(board) => i32_bool_at(mem, board + SCOREBOARD_ENABLED_OFFSET),
            }),
    {
        match self.singleton(mem, SCOREBOARD_SINGLETON_RVA, 4) {
            None => Err(DirectClientError::NotReady),
            Some(board) => mem.read_i32_bool(board + SCOREBOARD_ENABLED_OFFSET),
        }
    }

    /// The write that opens or closes the scoreboard.
    pub fn set_scoreboard_open(self, mem: &ProcessMemory, open: bool) -> (r: Result<
        Vec<MemoryWrite>,
        DirectClientError,
    >)
        ensures
            edits_of(r) == (match singleton_spec(mem, self.module_base, SCOREBOARD_SINGLETON_RVA, 4) {
                None => Err(DirectClientError::NotReady),
                Some(board) => Ok(
                    seq![(board + SCOREBOARD_ENABLED_OFFSET, le_bytes(if open { 1nat } else { 0nat }, 4))],
                ),
            }),
    {
        match self.singleton(mem, SCOREBOARD_SINGLETON_RVA, 4) {
            None => Err(DirectClientError::NotReady),
            Some(board) => {
                let value: u32 = if open {
                    1
                } else {
                    0
                };
                Ok(one_write(board + SCOREBOARD_ENABLED_OFFSET, le_bytes_of(value, 4)))
            },
        }
    }

    /// The cursor mode, which must lie between 0 and 4.
    pub fn cursor_mode(self, mem: &ProcessMemory) -> (r: Result<i32, DirectClientError>)
        ensures
            r == (match singleton_spec(mem, self.module_base, GAME_SINGLETON_RVA, GAME_CURSOR_MODE_OFFSET + 4) {
                None => Err(DirectClientError::NotReady),
                Some(game) => match mem.u32_at(game + GAME_CURSOR_MODE_OFFSET) {
                    Some(v) => if 0 <= v as i32 <= 4 {
                        Ok(v as i32)
                    } else {
                        Err(DirectClientError::NotReady)
                    },
                    None => Err(DirectClientError::NotReady),
                },
            }),
    {
        let game = match self.singleton(mem, GAME_SINGLETON_RVA, GAME_CURSOR_MODE_OFFSET + 4) {
            Some(g) => g,
            None => {
                return Err(DirectClientError::NotReady);
            },
        };
        match mem.read_u32(game + GAME_CURSOR_MODE_OFFSET) {
            Some(v) => {
                let mode = v as i32;
                if 0 <= mode && mode <= 4 {
                    Ok(mode)
                } else {
                    Err(DirectClientError::NotReady)
                }
            },
            None => Err(DirectClientError::NotReady),
        }
    }

    /// The write that sets the chat display mode (0 to 2).
    pub fn set_chat_display_mode(self, mem: &ProcessMemory, mode: i32) -> (r: Result<
        Vec<MemoryWrite>,
        DirectClientError,
    >)
        ensures
            edits_of(r) == (if !(0 <= mode <= 2) {
                Err(DirectClientError::NotReady)
            } else {
                match singleton_spec(mem, self.module_base, CHAT_SINGLETON_RVA, 1) {
                    None => Err(DirectClientError::NotReady),
                    Some(chat) => if chat + CHAT_DISPLAY_MODE_OFFSET > usize::MAX {
                        Err(DirectClientError::NotReady)
                    } else {
                        Ok(seq![(chat + CHAT_DISPLAY_MODE_OFFSET, le_bytes(mode as u32 as nat, 4))])
                    },
                }
            }),
    {
        if mode < 0 || mode > 2 {
            return Err(DirectClientError::NotReady);
        }
        let chat = match self.singleton(mem, CHAT_SINGLETON_RVA, 1) {
            Some(c) => c,
            None => {
                return Err(DirectClientError::NotReady);
            },
        };
        match checked_add(chat, CHAT_DISPLAY_MODE_OFFSET) {
            Some(a) => Ok(one_write(a, le_bytes_of(mode as u32, 4))),
            None => Err(DirectClientError::NotReady),
        }
    }

    /// The write that marks the shown dialog as client-side or server-side;
    /// the native field stores whether it is server-side.
    pub fn set_dialog_client_side(self, mem: &ProcessMemory, client_side: bool) -> (r: Result<
        Vec<MemoryWrite>,
        DirectClientError,
    >)
        ensures
            edits_of(r) == (match singleton_spec(mem, self.module_base, DIALOG_SINGLETON_RVA, 1) {
                None => Err(DirectClientError::NotReady),
                Some(dialog) => if dialog + DIALOG_SERVER_SIDE_OFFSET > usize::MAX {
                    Err(DirectClientError::NotReady)
                } else {
                    Ok(
                        seq![
                            (
                                dialog + DIALOG_SERVER_SIDE_OFFSET,
                                le_bytes(if client_side { 0nat } else { 1nat }, 4),
                            ),
                        ],
                    )
                },
            }),
    {
        let dialog = match self.singleton(mem, DIALOG_SINGLETON_RVA, 1) {
            Some(d) => d,
            None => {
                return Err(DirectClientError::NotReady);
            },
        };
        let value: u32 = if client_side {
            0
        } else {
            1
        };
        match checked_add(dialog, DIALOG_SERVER_SIDE_OFFSET) {
            Some(a) => Ok(one_write(a, le_bytes_of(value, 4))),
            None => Err(DirectClientError::NotReady),
        }
    }

    /// The write that selects item `selected` of the dialog's list box.
    pub fn set_dialog_selected_item(self, mem: &ProcessMemory, selected: i32) -> (r: Result<
        Vec<MemoryWrite>,
        DirectClientError,
    >)
        ensures
            edits_of(r) == (match singleton_spec(mem, self.module_base, DIALOG_SINGLETON_RVA, 1) {
                None => Err(DirectClientError::NotReady),
                Some(dialog) => if !mem.readable(dialog as int, DIALOG_LISTBOX_OFFSET + 4) {
                    Err(DirectClientError::NotReady)
                } else {
                    match non_null_at(mem, dialog + DIALOG_LISTBOX_OFFSET) {
                        None => Err(DirectClientError::NotReady),
                        Some(listbox) => if listbox + DXUT_LISTBOX_SELECTED_OFFSET > usize::MAX {
                            Err(DirectClientError::NotReady)
                        } else {
                            Ok(
                                seq![
                                    (
                                        listbox + DXUT_LISTBOX_SELECTED_OFFSET,
                                        le_bytes(selected as u32 as nat, 4),
                                    ),
                                ],
                            )
                        },
                    }
                },
            }),
    {
        let dialog = match self.singleton(mem, DIALOG_SINGLETON_RVA, 1) {
            Some(d) => d,
            None => {
                return Err(DirectClientError::NotReady);
            },
        };
        if !mem.readable_range(dialog, DIALOG_LISTBOX_OFFSET + 4) {
            return Err(DirectClientError::NotReady);
        }
        let listbox = match non_null(mem, dialog + DIALOG_LISTBOX_OFFSET) {
            Some(l) => l,
            None => {
                return Err(DirectClientError::NotReady);
            },
        };
        match checked_add(listbox, DXUT_LISTBOX_SELECTED_OFFSET) {
            Some(a) => Ok(one_write(a, le_bytes_of(selected as u32, 4))),
            None => Err(DirectClientError::NotReady),
        }
    }

    /// The body text of the shown dialog (empty when it has none).
    pub fn dialog_text(self, mem: &ProcessMemory) -> (r: Result<Vec<u8>, DirectClientError>)
        ensures
            match dialog_text_spec(mem, self.module_base) {
                Ok(s) => r matches Ok(v) && v@ == s,
                Err(e) => r == Err::<Vec<u8>, DirectClientError>(e),
            },
    {
        let dialog = match self.singleton(mem, DIALOG_SINGLETON_RVA, 1) {
            Some(d) => d,
            None => {
                return Err(DirectClientError::NotReady);
            },
        };
        let slot = match checked_add(dialog, DIALOG_TEXT_OFFSET) {
            Some(a) => a,
            None => {
                return Err(DirectClientError::NotReady);
            },
        };
        let text = match mem.read_pointer(slot) {
            Some(t) => t,
            None => {
                return Err(DirectClientError::NotReady);
            },
        };
        if text == 0 {
            return Ok(Vec::new());
        }
        match mem.read_c_string(text, MAX_DIALOG_TEXT_BYTES + 1) {
            Some(s) => Ok(s),
            None => Err(DirectClientError::NotReady),
        }
    }

    /// The text of item `index` of the dialog's list box.
    pub fn dialog_listbox_item_text(self, mem: &ProcessMemory, index: usize) -> (r: Result<
        Vec<u8>,
        DirectClientError,
    >)
        ensures
            match listbox_item_spec(mem, self.module_base, index as int) {
                Ok(s) => r matches Ok(v) && v@ == s,
                Err(e) => r == Err::<Vec<u8>, DirectClientError>(e),
            },
    {
        let dialog = match self.singleton(mem, DIALOG_SINGLETON_RVA, 1) {
            Some(d) => d,
            None => {
                return Err(DirectClientError::NotReady);
            },
        };
        let listbox = match checked_add(dialog, DIALOG_LISTBOX_OFFSET) {
            Some(a) => match non_null(mem, a) {
                Some(l) => l,
                None => {
                    return Err(DirectClientError::NotReady);
                },
            },
            None => {
                return Err(DirectClientError::NotReady);
            },
        };
        let items = match checked_add(listbox, DXUT_LISTBOX_ITEMS_OFFSET) {
            Some(a) => match non_null(mem, a) {
                Some(i) => i,
                None => {
                    return Err(DirectClientError::NotReady);
                },
            },
            None => {
                return Err(DirectClientError::NotReady);
            },
        };
        if index > (usize::MAX - items) / 4 {
            return Err(DirectClientError::NotReady);
        }
        let item = match non_null(mem, items + index * 4) {
            Some(i) => i,
            None => {
                return Err(DirectClientError::NotReady);
            },
        };
        match mem.read_c_string(item + DXUT_LISTBOX_ITEM_TEXT_OFFSET, DXUT_LISTBOX_ITEM_TEXT_CAPACITY) {
            Some(s) => Ok(s),
            None => Err(DirectClientError::NotReady),
        }
    }

    /// The writes that replace line `id` of the chat history: its prefix and
    /// text, zero-padded to their fields, and its two colours.
    pub fn set_chat_entry(
        self,
        mem: &ProcessMemory,
        id: u16,
        text: &[u8],
        prefix: &[u8],
        text_colour: u32,
        prefix_colour: u32,
    ) -> (r: Result<Vec<MemoryWrite>, DirectClientError>)
        ensures
            edits_of(r) == (if !(id < MAX_CHAT_ENTRIES && text@.len() < CHAT_ENTRY_TEXT_CAPACITY
                && prefix@.len() < CHAT_ENTRY_PREFIX_CAPACITY && !has_byte(text@, 0) && !has_byte(
                prefix@,
                0,
            )) {
                Err(DirectClientError::NotReady)
            } else {
                match singleton_spec(mem, self.module_base, CHAT_SINGLETON_RVA, 1) {
                    None => Err(DirectClientError::NotReady),
                    Some(chat) => {
                        let entry = chat + CHAT_ENTRIES_OFFSET + id * CHAT_ENTRY_SIZE;
                        if entry + CHAT_ENTRY_SIZE > usize::MAX {
                            Err(DirectClientError::NotReady)
                        } else {
                            Ok(
                                seq![
                                    (
                                        entry + CHAT_ENTRY_PREFIX_OFFSET,
                                        zero_padded(prefix@, CHAT_ENTRY_PREFIX_CAPACITY as int),
                                    ),
                                    (
                                        entry + CHAT_ENTRY_TEXT_OFFSET,
                                        zero_padded(text@, CHAT_ENTRY_TEXT_CAPACITY as int),
                                    ),
                                    (
                                        entry + CHAT_ENTRY_TEXT_COLOUR_OFFSET,
                                        le_bytes(text_colour as nat, 4),
                                    ),
                                    (
                                        entry + CHAT_ENTRY_PREFIX_COLOUR_OFFSET,
                                        le_bytes(prefix_colour as nat, 4),
                                    ),
                                ],
                            )
                        }
                    },
                }
            }),
    {
        if id >= MAX_CHAT_ENTRIES || text.len() >= CHAT_ENTRY_TEXT_CAPACITY || prefix.len()
            >= CHAT_ENTRY_PREFIX_CAPACITY || contains_byte(text, 0) || contains_byte(prefix, 0) {
            return Err(DirectClientError::NotReady);
        }
        let chat = match self.singleton(mem, CHAT_SINGLETON_RVA, 1) {
            Some(c) => c,
            None => {
                return Err(DirectClientError::NotReady);
            },
        };
        let entry = match checked_add(chat, CHAT_ENTRIES_OFFSET + (id as usize) * CHAT_ENTRY_SIZE) {
            Some(e) => e,
            None => {
                return Err(DirectClientError::NotReady);
            },
        };
        if entry > usize::MAX - CHAT_ENTRY_SIZE {
            return Err(DirectClientError::NotReady);
        }
        let mut writes: Vec<MemoryWrite> = Vec::new();
        writes.push(
            MemoryWrite {
                address: entry + CHAT_ENTRY_PREFIX_OFFSET,
                bytes: padded_bytes(prefix, CHAT_ENTRY_PREFIX_CAPACITY),
            },
        );
        writes.push(
            MemoryWrite {
                address: entry + CHAT_ENTRY_TEXT_OFFSET,
                bytes: padded_bytes(text, CHAT_ENTRY_TEXT_CAPACITY),
            },
        );
        writes.push(
            MemoryWrite {
                address: entry + CHAT_ENTRY_TEXT_COLOUR_OFFSET,
                bytes: le_bytes_of(text_colour, 4),
            },
        );
        writes.push(
            MemoryWrite {
                address: entry + CHAT_ENTRY_PREFIX_COLOUR_OFFSET,
                bytes: le_bytes_of(prefix_colour, 4),
            },
        );
        assert(writes_view(writes@) =~= seq![
            (entry + CHAT_ENTRY_PREFIX_OFFSET, zero_padded(prefix@, CHAT_ENTRY_PREFIX_CAPACITY as int)),
            (entry + CHAT_ENTRY_TEXT_OFFSET, zero_padded(text@, CHAT_ENTRY_TEXT_CAPACITY as int)),
            (entry + CHAT_ENTRY_TEXT_COLOUR_OFFSET, le_bytes(text_colour as nat, 4)),
            (entry + CHAT_ENTRY_PREFIX_COLOUR_OFFSET, le_bytes(prefix_colour as nat, 4)),
        ]);
        Ok(writes)
    }
}

} // verus!
