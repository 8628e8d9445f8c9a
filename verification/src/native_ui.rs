//! UI reads of a build with profile data: the UI singletons, the chat
//! history and the UI's scalar state.

use vstd::prelude::*;
use crate::error::DirectClientError;
use crate::label_reads::{NativeReader, offset_by};
use crate::bits::le_bytes;
use crate::bitstream::le_bytes_of;
use crate::memory::{MemoryWrite, ProcessMemory};
use crate::r1_textdraw_edits::{edits_of, writes_view};
use crate::r1_ui::{padded_bytes, zero_padded};
use crate::text::{contains_byte, has_byte};
use crate::r1_pools::{ChatEntrySnapshot, ChatEntryView};
use crate::r1_reads::{i32_bool_at, resolve_singleton, singleton_spec};

verus! {

/// The singleton at `rva` with `minimum` readable bytes, when `minimum`
/// is an address-sized count.
pub open spec fn sized_singleton_spec(mem: &ProcessMemory, base: usize, rva: usize, minimum: int) -> Option<
    usize,
> {
    if minimum > usize::MAX {
        None
    } else {
        singleton_spec(mem, base, rva, minimum)
    }
}

/// The 32-bit value at `a`, when it lies in `low..=high`.
pub open spec fn ranged_i32_spec(mem: &ProcessMemory, a: int, low: i32, high: i32) -> Result<
    i32,
    DirectClientError,
> {
    match mem.u32_at(a) {
        Some(v) => if low <= (v as i32) <= high {
            Ok(v as i32)
        } else {
            Err(DirectClientError::NotReady)
        },
        None => Err(DirectClientError::NotReady),
    }
}

/// Reads the 32-bit value at `a + off`, when it lies in `low..=high`.
fn ranged_i32(mem: &ProcessMemory, a: usize, off: usize, low: i32, high: i32) -> (r: Result<
    i32,
    DirectClientError,
>)
    ensures
        r == ranged_i32_spec(mem, a + off, low, high),
{
    let v = match offset_by(a, off) {
        Some(x) => mem.read_u32(x),
        None => None,
    };
    match v {
        Some(v) => {
            let s = v as i32;
            if low <= s && s <= high {
                Ok(s)
            } else {
                Err(DirectClientError::NotReady)
            }
        },
        None => Err(DirectClientError::NotReady),
    }
}

/// Reads the 32-bit boolean at `a + off`.
fn bool_field(mem: &ProcessMemory, a: usize, off: usize) -> (r: Result<bool, DirectClientError>)
    ensures
        r == i32_bool_at(mem, a + off),
{
    match offset_by(a, off) {
        Some(x) => mem.read_i32_bool(x),
        None => Err(DirectClientError::NotReady),
    }
}

impl NativeReader {
    /// The dialog, readable through its active flag.
    pub open spec fn dialog_spec(&self, mem: &ProcessMemory) -> Option<usize> {
        sized_singleton_spec(
            mem,
            self.module_base,
            self.spec.ui.dialog.singleton_rva.0,
            self.spec.ui.dialog.active_offset.0 + 4,
        )
    }

    /// The chat, of which one byte must be readable.
    pub open spec fn chat_spec(&self, mem: &ProcessMemory) -> Option<usize> {
        singleton_spec(mem, self.module_base, self.spec.ui.chat.singleton_rva.0, 1)
    }

    /// The chat input, readable through its enabled flag.
    pub open spec fn input_spec(&self, mem: &ProcessMemory) -> Option<usize> {
        sized_singleton_spec(
            mem,
            self.module_base,
            self.spec.ui.input.singleton_rva.0,
            self.spec.ui.input.enabled_offset.0 + 4,
        )
    }

    /// The game, readable through its cursor mode.
    pub open spec fn game_spec(&self, mem: &ProcessMemory) -> Option<usize> {
        sized_singleton_spec(
            mem,
            self.module_base,
            self.spec.ui.game.singleton_rva.0,
            self.spec.ui.game.cursor_mode_offset.0 + 4,
        )
    }

    /// Line `id` of the chat history, by the profile's chat layout. The
    /// chat must be readable through the end of the line.
    pub open spec fn chat_entry_read_spec(&self, mem: &ProcessMemory, id: u16) -> Result<
        ChatEntryView,
        DirectClientError,
    > {
        let c = self.spec.ui.chat;
        if id >= c.max_entries.0 {
            Err(DirectClientError::NotReady)
        } else {
            match sized_singleton_spec(
                mem,
                self.module_base,
                c.singleton_rva.0,
                c.entries_offset.0 + (id + 1) * c.entry_size.0,
            ) {
                None => Err(DirectClientError::NotReady),
                Some(chat) => {
                    let entry = chat + c.entries_offset.0 + id * c.entry_size.0;
                    match (
                        mem.c_string(entry + c.prefix_offset.0, c.prefix_capacity.0 as int),
                        mem.c_string(entry + c.text_offset.0, c.text_capacity.0 as int),
                        mem.u32_at(entry + c.text_colour_offset.0),
                        mem.u32_at(entry + c.prefix_colour_offset.0),
                    ) {
                        (Some(prefix), Some(text), Some(text_colour), Some(prefix_colour)) => Ok(
                            ChatEntryView { id, text, prefix, text_colour, prefix_colour },
                        ),
                        _ => Err(DirectClientError::NotReady),
                    }
                },
            }
        }
    }

    /// The singleton at `rva`, readable over `offset + 4` bytes.
    pub(crate) fn singleton_through(&self, mem: &ProcessMemory, rva: usize, offset: usize) -> (r: Option<usize>)
        ensures
            r == sized_singleton_spec(mem, self.module_base, rva, offset + 4),
    {
        match offset_by(offset, 4) {
            Some(minimum) => resolve_singleton(mem, self.module_base, rva, minimum),
            None => None,
        }
    }

    /// Whether the dialog can be used.
    pub fn dialog_is_ready(&self, mem: &ProcessMemory) -> (b: bool)
        ensures
            b == self.dialog_spec(mem) is Some,
    {
        self.singleton_through(mem, self.spec.ui.dialog.singleton_rva.0, self.spec.ui.dialog.active_offset.0).is_some()
    }

    /// Whether the chat can be used.
    pub fn chat_is_ready(&self, mem: &ProcessMemory) -> (b: bool)
        ensures
            b == self.chat_spec(mem) is Some,
    {
        resolve_singleton(mem, self.module_base, self.spec.ui.chat.singleton_rva.0, 1).is_some()
    }

    /// Whether the chat input can be used.
    pub fn input_is_ready(&self, mem: &ProcessMemory) -> (b: bool)
        ensures
            b == self.input_spec(mem) is Some,
    {
        self.singleton_through(mem, self.spec.ui.input.singleton_rva.0, self.spec.ui.input.enabled_offset.0).is_some()
    }

    /// Whether the game can be used.
    pub fn game_is_ready(&self, mem: &ProcessMemory) -> (b: bool)
        ensures
            b == self.game_spec(mem) is Some,
    {
        self.singleton_through(mem, self.spec.ui.game.singleton_rva.0, self.spec.ui.game.cursor_mode_offset.0).is_some()
    }

    /// The chat's display mode, one of 0, 1 and 2.
    pub fn chat_display_mode(&self, mem: &ProcessMemory) -> (r: Result<i32, DirectClientError>)
        ensures
            r == (match self.chat_spec(mem) {
                None => Err(DirectClientError::NotReady),
                Some(chat) => ranged_i32_spec(mem, chat + self.spec.ui.chat.display_mode_offset.0, 0, 2),
            }),
    {
        match resolve_singleton(mem, self.module_base, self.spec.ui.chat.singleton_rva.0, 1) {
            None => Err(DirectClientError::NotReady),
            Some(chat) => ranged_i32(mem, chat, self.spec.ui.chat.display_mode_offset.0, 0, 2),
        }
    }

    /// The game's cursor mode, one of 0 to 4.
    pub fn cursor_mode(&self, mem: &ProcessMemory) -> (r: Result<i32, DirectClientError>)
        ensures
            r == (match self.game_spec(mem) {
                None => Err(DirectClientError::NotReady),
                Some(game) => ranged_i32_spec(mem, game + self.spec.ui.game.cursor_mode_offset.0, 0, 4),
            }),
    {
        match self.singleton_through(mem, self.spec.ui.game.singleton_rva.0, self.spec.ui.game.cursor_mode_offset.0) {
            None => Err(DirectClientError::NotReady),
            Some(game) => ranged_i32(mem, game, self.spec.ui.game.cursor_mode_offset.0, 0, 4),
        }
    }

    /// Whether a dialog is shown.
    pub fn dialog_is_active(&self, mem: &ProcessMemory) -> (r: Result<bool, DirectClientError>)
        ensures
            r == (match self.dialog_spec(mem) {
                None => Err(DirectClientError::NotReady),
                Some(dialog) => i32_bool_at(mem, dialog + self.spec.ui.dialog.active_offset.0),
            }),
    {
        match self.singleton_through(mem, self.spec.ui.dialog.singleton_rva.0, self.spec.ui.dialog.active_offset.0) {
            None => Err(DirectClientError::NotReady),
            Some(dialog) => bool_field(mem, dialog, self.spec.ui.dialog.active_offset.0),
        }
    }

    /// Whether the chat input is open.
    pub fn chat_input_is_active(&self, mem: &ProcessMemory) -> (r: Result<bool, DirectClientError>)
        ensures
            r == (match self.input_spec(mem) {
                None => Err(DirectClientError::NotReady),
                Some(input) => i32_bool_at(mem, input + self.spec.ui.input.enabled_offset.0),
            }),
    {
        match self.singleton_through(mem, self.spec.ui.input.singleton_rva.0, self.spec.ui.input.enabled_offset.0) {
            None => Err(DirectClientError::NotReady),
            Some(input) => bool_field(mem, input, self.spec.ui.input.enabled_offset.0),
        }
    }

    /// Line `id` of the chat history.
    pub fn chat_entry(&self, mem: &ProcessMemory, id: u16) -> (r: Result<ChatEntrySnapshot, DirectClientError>)
        ensures
            match self.chat_entry_read_spec(mem, id) {
                Ok(v) => r matches Ok(s) && s@ == v,
                Err(e) => r == Err::<ChatEntrySnapshot, DirectClientError>(e),
            },
    {
        let c = self.spec.ui.chat;
        if id as usize >= c.max_entries.0 {
            return Err(DirectClientError::NotReady);
        }
        let size = c.entry_size.0;
        let next = (id as usize) + 1;
        if size != 0 && next > usize::MAX / size {
            proof {
                assert(next * size > usize::MAX) by (nonlinear_arith)
                    requires
                        size > 0,
                        next > (usize::MAX as int) / (size as int),
                ;
            }
            return Err(DirectClientError::NotReady);
        }
        proof {
            assert(next * size <= usize::MAX) by (nonlinear_arith)
                requires
                    size == 0 || next <= (usize::MAX as int) / (size as int),
                    next >= 0,
            ;
            assert((id as int) * size <= next * size) by (nonlinear_arith)
                requires
                    next == id + 1,
                    size >= 0,
            ;
        }
        let span = next * size;
        let required = match offset_by(c.entries_offset.0, span) {
            Some(r) => r,
            None => {
                return Err(DirectClientError::NotReady);
            },
        };
        let chat = match resolve_singleton(mem, self.module_base, c.singleton_rva.0, required) {
            Some(p) => p,
            None => {
                return Err(DirectClientError::NotReady);
            },
        };
        let entry = match offset_by(chat, c.entries_offset.0) {
            Some(a) => match offset_by(a, (id as usize) * size) {
                Some(e) => e,
                None => {
                    return Err(DirectClientError::NotReady);
                },
            },
            None => {
                return Err(DirectClientError::NotReady);
            },
        };
        let prefix = match offset_by(entry, c.prefix_offset.0) {
            Some(a) => mem.read_c_string(a, c.prefix_capacity.0),
            None => None,
        };
        let prefix = match prefix {
            Some(p) => p,
            None => {
                return Err(DirectClientError::NotReady);
            },
        };
        let text = match offset_by(entry, c.text_offset.0) {
            Some(a) => mem.read_c_string(a, c.text_capacity.0),
            None => None,
        };
        let text = match text {
            Some(t) => t,
            None => {
                return Err(DirectClientError::NotReady);
            },
        };
        let text_colour = match offset_by(entry, c.text_colour_offset.0) {
            Some(a) => mem.read_u32(a),
            None => None,
        };
        let prefix_colour = match offset_by(entry, c.prefix_colour_offset.0) {
            Some(a) => mem.read_u32(a),
            None => None,
        };
        match (text_colour, prefix_colour) {
            (Some(text_colour), Some(prefix_colour)) => Ok(
                ChatEntrySnapshot { id, text, prefix, text_colour, prefix_colour },
            ),
            _ => Err(DirectClientError::NotReady),
        }
    }
}

impl NativeReader {
    /// The writes that replace line `id` of the chat history: its prefix and
    /// text, zero-padded to their fields, and its two colours. The text and
    /// prefix must be shorter than their fields and hold no NUL; the chat
    /// must be readable through the end of the line.
    pub open spec fn chat_entry_writes_spec(
        &self,
        mem: &ProcessMemory,
        id: u16,
        text: Seq<u8>,
        prefix: Seq<u8>,
        text_colour: u32,
        prefix_colour: u32,
    ) -> Result<Seq<(int, Seq<u8>)>, DirectClientError> {
        let c = self.spec.ui.chat;
        if !(id < c.max_entries.0 && text.len() < c.text_capacity.0 && prefix.len() < c.prefix_capacity.0
            && !has_byte(text, 0) && !has_byte(prefix, 0)) {
            Err(DirectClientError::NotReady)
        } else {
            match sized_singleton_spec(
                mem,
                self.module_base,
                c.singleton_rva.0,
                c.entries_offset.0 + (id + 1) * c.entry_size.0,
            ) {
                None => Err(DirectClientError::NotReady),
                Some(chat) => {
                    let entry = chat + c.entries_offset.0 + id * c.entry_size.0;
                    if entry + c.prefix_offset.0 > usize::MAX || entry + c.text_offset.0 > usize::MAX
                        || entry + c.text_colour_offset.0 > usize::MAX || entry
                        + c.prefix_colour_offset.0 > usize::MAX {
                        Err(DirectClientError::NotReady)
                    } else {
                        Ok(
                            seq![
                                (entry + c.prefix_offset.0, zero_padded(prefix, c.prefix_capacity.0 as int)),
                                (entry + c.text_offset.0, zero_padded(text, c.text_capacity.0 as int)),
                                (entry + c.text_colour_offset.0, le_bytes(text_colour as nat, 4)),
                                (entry + c.prefix_colour_offset.0, le_bytes(prefix_colour as nat, 4)),
                            ],
                        )
                    }
                },
            }
        }
    }

    /// The writes that replace line `id` of the chat history.
    pub fn set_chat_entry(
        &self,
        mem: &ProcessMemory,
        id: u16,
        text: &[u8],
        prefix: &[u8],
        text_colour: u32,
        prefix_colour: u32,
    ) -> (r: Result<Vec<MemoryWrite>, DirectClientError>)
        ensures
            edits_of(r) == self.chat_entry_writes_spec(mem, id, text@, prefix@, text_colour, prefix_colour),
    {
        let c = self.spec.ui.chat;
        if id as usize >= c.max_entries.0 || text.len() >= c.text_capacity.0 || prefix.len()
            >= c.prefix_capacity.0 || contains_byte(text, 0) || contains_byte(prefix, 0) {
            return Err(DirectClientError::NotReady);
        }
        let size = c.entry_size.0;
        let next = (id as usize) + 1;
        if size != 0 && next > usize::MAX / size {
            proof {
                assert(next * size > usize::MAX) by (nonlinear_arith)
                    requires
                        size > 0,
                        next > (usize::MAX as int) / (size as int),
                ;
            }
            return Err(DirectClientError::NotReady);
        }
        proof {
            assert(next * size <= usize::MAX) by (nonlinear_arith)
                requires
                    size == 0 || next <= (usize::MAX as int) / (size as int),
                    next >= 0,
            ;
            assert((id as int) * size <= next * size) by (nonlinear_arith)
                requires
                    next == id + 1,
                    size >= 0,
            ;
        }
        let required = match offset_by(c.entries_offset.0, next * size) {
            Some(r) => r,
            None => {
                return Err(DirectClientError::NotReady);
            },
        };
        let chat = match resolve_singleton(mem, self.module_base, c.singleton_rva.0, required) {
            Some(p) => p,
            None => {
                return Err(DirectClientError::NotReady);
            },
        };
        let entry = match offset_by(chat, c.entries_offset.0) {
            Some(a) => match offset_by(a, (id as usize) * size) {
                Some(e) => e,
                None => {
                    return Err(DirectClientError::NotReady);
                },
            },
            None => {
                return Err(DirectClientError::NotReady);
            },
        };
        let addresses = (
            offset_by(entry, c.prefix_offset.0),
            offset_by(entry, c.text_offset.0),
            offset_by(entry, c.text_colour_offset.0),
            offset_by(entry, c.prefix_colour_offset.0),
        );
        match addresses {
            (Some(prefix_at), Some(text_at), Some(text_colour_at), Some(prefix_colour_at)) => {
                let mut writes: Vec<MemoryWrite> = Vec::new();
                writes.push(MemoryWrite { address: prefix_at, bytes: padded_bytes(prefix, c.prefix_capacity.0) });
                writes.push(MemoryWrite { address: text_at, bytes: padded_bytes(text, c.text_capacity.0) });
                writes.push(MemoryWrite { address: text_colour_at, bytes: le_bytes_of(text_colour, 4) });
                writes.push(MemoryWrite { address: prefix_colour_at, bytes: le_bytes_of(prefix_colour, 4) });
                assert(writes_view(writes@) =~= seq![
                    (prefix_at as int, zero_padded(prefix@, c.prefix_capacity.0 as int)),
                    (text_at as int, zero_padded(text@, c.text_capacity.0 as int)),
                    (text_colour_at as int, le_bytes(text_colour as nat, 4)),
                    (prefix_colour_at as int, le_bytes(prefix_colour as nat, 4)),
                ]);
                Ok(writes)
            },
            _ => Err(DirectClientError::NotReady),
        }
    }

    /// The write that sets the chat display mode (0 to 2).
    pub fn set_chat_display_mode(&self, mem: &ProcessMemory, mode: i32) -> (r: Result<
        Vec<MemoryWrite>,
        DirectClientError,
    >)
        ensures
            edits_of(r) == (if !(0 <= mode <= 2) {
                Err(DirectClientError::NotReady)
            } else {
                match self.chat_spec(mem) {
                    None => Err(DirectClientError::NotReady),
                    Some(chat) => if chat + self.spec.ui.chat.display_mode_offset.0 > usize::MAX {
                        Err(DirectClientError::NotReady)
                    } else {
                        Ok(
                            seq![
                                (
                                    chat + self.spec.ui.chat.display_mode_offset.0,
                                    le_bytes(mode as u32 as nat, 4),
                                ),
                            ],
                        )
                    },
                }
            }),
    {
        if mode < 0 || mode > 2 {
            return Err(DirectClientError::NotReady);
        }
        let chat = match resolve_singleton(mem, self.module_base, self.spec.ui.chat.singleton_rva.0, 1) {
            Some(c) => c,
            None => {
                return Err(DirectClientError::NotReady);
            },
        };
        match offset_by(chat, self.spec.ui.chat.display_mode_offset.0) {
            Some(a) => {
                let mut writes: Vec<MemoryWrite> = Vec::new();
                writes.push(MemoryWrite { address: a, bytes: le_bytes_of(mode as u32, 4) });
                assert(writes_view(writes@) =~= seq![(a as int, le_bytes(mode as u32 as nat, 4))]);
                Ok(writes)
            },
            None => Err(DirectClientError::NotReady),
        }
    }
}

} // verus!
