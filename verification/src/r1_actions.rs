//! The R1 operations that call one of the client's functions once their
//! arguments and the objects they act on have been checked. Each answers the
//! call the host is to make, or the failure before any call; the host makes
//! the call and decides nothing.

use vstd::prelude::*;
use crate::bits::le_bytes;
use crate::bitstream::le_bytes_of;
use crate::commands::valid_command_name;
use crate::error::DirectClientError;
use crate::memory::{MemoryWrite, ProcessMemory};
use crate::players::{SendRateKind, is_special_action, send_rate_update, valid_special_action};
use crate::r1_addresses::{
    AIM_SEND_RATE_RVA, DIALOG_CLOSE_RVA, DXUT_EDIT_BOX_SET_TEXT_RVA, INPUT_CLOSE_RVA, INPUT_OPEN_RVA,
    INPUT_PROCESS_RVA, DIALOG_SINGLETON_RVA, GAME_PROCESS_INPUT_ENABLING_RVA,
    GAME_SET_CURSOR_MODE_RVA, GAME_SINGLETON_RVA, INCAR_SEND_RATE_RVA, INPUT_ADD_COMMAND_RVA,
    INPUT_GET_COMMAND_HANDLER_RVA, INPUT_SINGLETON_RVA, LABEL_POOL_DELETE_RVA,
    LOCAL_PLAYER_SET_SPECIAL_ACTION_RVA, TEXTDRAW_POOL_DELETE_RVA,
    ONFOOT_SEND_RATE_RVA, PLAYER_POOL_SET_LOCAL_PLAYER_NAME_RVA,
};
use crate::r1_layout::{
    GAME_CURSOR_MODE_OFFSET, INPUT_COMMAND_COUNT_OFFSET, INPUT_ENABLED_OFFSET, MAX_CHAT_COMMANDS,
    DIALOG_EDITBOX_OFFSET, INPUT_EDIT_BOX_OFFSET, MAX_CHAT_COMMAND_NAME_BYTES, MAX_CHAT_INPUT_TEXT_BYTES,
    MAX_DIALOG_EDITBOX_TEXT_BYTES, MAX_LOCAL_PLAYER_NAME_BYTES, MAX_SAMP_TEXTDRAWS, MAX_SAMP_TEXT_LABELS,
    NET_GAME_POOLS_LABEL_POOL_OFFSET, NET_GAME_POOLS_TEXTDRAW_POOL_OFFSET,
};
use crate::label_reads::{non_null, offset_by};
use crate::r1_reads::{non_null_at, pool_spec, singleton_spec};
use crate::r1_steps::{target, target_spec};
use crate::r1_textdraw_edits::{edits_of, writes_view};
use crate::selection::R1ClientProfile;
use crate::text::{contains_byte, has_byte, nul_terminated};

verus! {

/// A call of the game's cursor-mode setter at `target` on the game at
/// `game`, with the mode and whether the cursor locks the controls.
#[derive(Clone, Copy, Debug, PartialEq, Eq, Structural)]
pub struct CursorCall {
    pub target: usize,
    pub game: usize,
    pub mode: i32,
    pub lock: i32,
}

/// The functions that register a chat command on the input object: the
/// handler lookup, whose answer must be null, and the registration.
#[derive(Clone, Copy, Debug, PartialEq, Eq, Structural)]
pub struct CommandRegistration {
    pub input: usize,
    pub get_handler: usize,
    pub add_command: usize,
}

/// The RVA of the send-rate global of a kind.
pub open spec fn send_rate_rva(kind: SendRateKind) -> usize {
    match kind {
        SendRateKind::OnFoot => ONFOOT_SEND_RATE_RVA,
        SendRateKind::InCar => INCAR_SEND_RATE_RVA,
        SendRateKind::Aim => AIM_SEND_RATE_RVA,
    }
}

/// The send-rate kind that `kind` selects: 0 on foot, 1 in a vehicle, 2
/// aiming.
pub open spec fn send_rate_kind(kind: u8) -> SendRateKind {
    if kind == 0 {
        SendRateKind::OnFoot
    } else if kind == 1 {
        SendRateKind::InCar
    } else {
        SendRateKind::Aim
    }
}

/// A cursor-mode call is owed for modes 0 to 4 only; the mode locks the
/// controls unless it is 0.
pub open spec fn cursor_call_spec(mem: &ProcessMemory, base: usize, mode: i32) -> Result<
    CursorCall,
    DirectClientError,
> {
    if !(0 <= mode <= 4) {
        Err(DirectClientError::NotReady)
    } else {
        match singleton_spec(mem, base, GAME_SINGLETON_RVA, GAME_CURSOR_MODE_OFFSET + 4) {
            None => Err(DirectClientError::NotReady),
            Some(game) => match target_spec(base, GAME_SET_CURSOR_MODE_RVA) {
                None => Err(DirectClientError::NotReady),
                Some(t) => Ok(
                    CursorCall {
                        target: t,
                        game,
                        mode,
                        lock: if mode != 0 {
                            1
                        } else {
                            0
                        },
                    },
                ),
            },
        }
    }
}

/// A registration's handler lookup answered `handler`: only a null handler
/// leaves the name free to register.
pub fn command_handler_is_free(handler: usize) -> (r: Result<(), DirectClientError>)
    ensures
        r == (if handler == 0 {
            Ok::<(), DirectClientError>(())
        } else {
            Err(DirectClientError::NotReady)
        }),
{
    if handler == 0 {
        Ok(())
    } else {
        Err(DirectClientError::NotReady)
    }
}

/// A constructor of the client (the textdraw pool's create) answered the
/// object `object`: a null object is a failure.
pub fn created(object: usize) -> (r: Result<(), DirectClientError>)
    ensures
        r == (if object != 0 {
            Ok::<(), DirectClientError>(())
        } else {
            Err(DirectClientError::NotReady)
        }),
{
    if object != 0 {
        Ok(())
    } else {
        Err(DirectClientError::NotReady)
    }
}

/// A client function that answers 0 for a refusal (the local player's
/// spawn, the label pool's delete) answered `answer`.
pub fn accepted(answer: i32) -> (r: Result<(), DirectClientError>)
    ensures
        r == (if answer != 0 {
            Ok::<(), DirectClientError>(())
        } else {
            Err(DirectClientError::NotReady)
        }),
{
    if answer != 0 {
        Ok(())
    } else {
        Err(DirectClientError::NotReady)
    }
}

impl R1ClientProfile {
    /// The dialog's close function and the dialog, for a response button
    /// of 0 or 1; any other button fails before the dialog is looked up.
    pub fn close_dialog_call(self, mem: &ProcessMemory, button: u8) -> (r: Result<
        (usize, usize),
        DirectClientError,
    >)
        ensures
            r == (if button > 1 {
                Err(DirectClientError::NotReady)
            } else {
                match singleton_spec(mem, self.module_base, DIALOG_SINGLETON_RVA, 1) {
                    None => Err(DirectClientError::NotReady),
                    Some(dialog) => match target_spec(self.module_base, DIALOG_CLOSE_RVA) {
                        None => Err(DirectClientError::NotReady),
                        Some(t) => Ok((t, dialog)),
                    },
                }
            }),
    {
        if button > 1 {
            return Err(DirectClientError::NotReady);
        }
        let dialog = match self.singleton(mem, DIALOG_SINGLETON_RVA, 1) {
            Some(d) => d,
            None => {
                return Err(DirectClientError::NotReady);
            },
        };
        match target(self.module_base, DIALOG_CLOSE_RVA) {
            Some(t) => Ok((t, dialog)),
            None => Err(DirectClientError::NotReady),
        }
    }

    /// The cursor-mode call for `mode`, which must lie between 0 and 4.
    pub fn cursor_mode_call(self, mem: &ProcessMemory, mode: i32) -> (r: Result<CursorCall, DirectClientError>)
        ensures
            r == cursor_call_spec(mem, self.module_base, mode),
    {
        if mode < 0 || mode > 4 {
            return Err(DirectClientError::NotReady);
        }
        let game = match self.singleton(mem, GAME_SINGLETON_RVA, GAME_CURSOR_MODE_OFFSET + 4) {
            Some(g) => g,
            None => {
                return Err(DirectClientError::NotReady);
            },
        };
        match target(self.module_base, GAME_SET_CURSOR_MODE_RVA) {
            Some(t) => Ok(
                CursorCall {
                    target: t,
                    game,
                    mode,
                    lock: if mode != 0 {
                        1
                    } else {
                        0
                    },
                },
            ),
            None => Err(DirectClientError::NotReady),
        }
    }

    /// The calls that show (mode 3) or hide (mode 0) the cursor; hiding it
    /// also hands the controls back through the game's input-enabling
    /// function, called on the same game.
    pub fn toggle_cursor_calls(self, mem: &ProcessMemory, show: bool) -> (r: Result<
        (CursorCall, Option<usize>),
        DirectClientError,
    >)
        ensures
            r == (match cursor_call_spec(
                mem,
                self.module_base,
                if show {
                    3
                } else {
                    0
                },
            ) {
                Err(e) => Err(e),
                Ok(c) => if show {
                    Ok((c, None))
                } else {
                    match target_spec(self.module_base, GAME_PROCESS_INPUT_ENABLING_RVA) {
                        None => Err(DirectClientError::NotReady),
                        Some(t) => Ok((c, Some(t))),
                    }
                },
            }),
    {
        let call = match self.cursor_mode_call(
            mem,
            if show {
                3
            } else {
                0
            },
        ) {
            Ok(c) => c,
            Err(e) => {
                return Err(e);
            },
        };
        if show {
            Ok((call, None))
        } else {
            match target(self.module_base, GAME_PROCESS_INPUT_ENABLING_RVA) {
                Some(t) => Ok((call, Some(t))),
                None => Err(DirectClientError::NotReady),
            }
        }
    }

    /// The functions that register chat command `name`: the name must be
    /// a valid command name, and the input object must hold fewer commands
    /// than its table can take.
    pub fn command_registration(self, mem: &ProcessMemory, name: &[u8]) -> (r: Result<
        CommandRegistration,
        DirectClientError,
    >)
        ensures
            r == (if !valid_command_name(name@, MAX_CHAT_COMMAND_NAME_BYTES as int) {
                Err(DirectClientError::NotReady)
            } else {
                match singleton_spec(mem, self.module_base, INPUT_SINGLETON_RVA, INPUT_ENABLED_OFFSET + 4) {
                    None => Err(DirectClientError::NotReady),
                    Some(input) => match mem.u32_at(input + INPUT_COMMAND_COUNT_OFFSET) {
                        None => Err(DirectClientError::NotReady),
                        Some(count) => if !(0 <= (count as i32) && (count as i32) < MAX_CHAT_COMMANDS) {
                            Err(DirectClientError::NotReady)
                        } else {
                            match (
                                target_spec(self.module_base, INPUT_GET_COMMAND_HANDLER_RVA),
                                target_spec(self.module_base, INPUT_ADD_COMMAND_RVA),
                            ) {
                                (Some(g), Some(a)) => Ok(
                                    CommandRegistration { input, get_handler: g, add_command: a },
                                ),
                                _ => Err(DirectClientError::NotReady),
                            }
                        },
                    },
                }
            }),
    {
        if name.len() == 0 || name.len() > MAX_CHAT_COMMAND_NAME_BYTES || contains_byte(name, 0) {
            return Err(DirectClientError::NotReady);
        }
        let input = match self.singleton(mem, INPUT_SINGLETON_RVA, INPUT_ENABLED_OFFSET + 4) {
            Some(i) => i,
            None => {
                return Err(DirectClientError::NotReady);
            },
        };
        proof {
            mem.lemma_readable_within(
                input as int,
                (INPUT_ENABLED_OFFSET + 4) as int,
                INPUT_COMMAND_COUNT_OFFSET as int,
                4,
            );
        }
        let count = match mem.read_u32(input + INPUT_COMMAND_COUNT_OFFSET) {
            Some(c) => c as i32,
            None => {
                return Err(DirectClientError::NotReady);
            },
        };
        if count < 0 || count >= MAX_CHAT_COMMANDS as i32 {
            return Err(DirectClientError::NotReady);
        }
        match (target(self.module_base, INPUT_GET_COMMAND_HANDLER_RVA), target(self.module_base, INPUT_ADD_COMMAND_RVA)) {
            (Some(g), Some(a)) => Ok(CommandRegistration { input, get_handler: g, add_command: a }),
            _ => Err(DirectClientError::NotReady),
        }
    }

    /// The special-action setter, for the actions the local player may be
    /// given (0 to 12, 20 to 25 and 68); any other action fails first.
    pub fn special_action_target(self, action: u8) -> (r: Result<usize, DirectClientError>)
        ensures
            r == (if !is_special_action(action) {
                Err(DirectClientError::NotReady)
            } else {
                match target_spec(self.module_base, LOCAL_PLAYER_SET_SPECIAL_ACTION_RVA) {
                    None => Err(DirectClientError::NotReady),
                    Some(t) => Ok(t),
                }
            }),
    {
        if !valid_special_action(action) {
            return Err(DirectClientError::NotReady);
        }
        match target(self.module_base, LOCAL_PLAYER_SET_SPECIAL_ACTION_RVA) {
            Some(t) => Ok(t),
            None => Err(DirectClientError::NotReady),
        }
    }

    /// The player pool's name setter and the terminated name, for a name of
    /// at most 255 bytes with no zero byte.
    pub fn local_name_call(self, name: &[u8]) -> (r: Result<(usize, Vec<u8>), DirectClientError>)
        ensures
            match r {
                Ok((t, bytes)) => name@.len() <= MAX_LOCAL_PLAYER_NAME_BYTES && !has_byte(name@, 0)
                    && target_spec(self.module_base, PLAYER_POOL_SET_LOCAL_PLAYER_NAME_RVA) == Some(t)
                    && bytes@ == name@.push(0),
                Err(e) => e == DirectClientError::NotReady && (name@.len() > MAX_LOCAL_PLAYER_NAME_BYTES
                    || has_byte(name@, 0) || target_spec(
                    self.module_base,
                    PLAYER_POOL_SET_LOCAL_PLAYER_NAME_RVA,
                ) is None),
            },
    {
        if name.len() > MAX_LOCAL_PLAYER_NAME_BYTES || contains_byte(name, 0) {
            return Err(DirectClientError::NotReady);
        }
        match target(self.module_base, PLAYER_POOL_SET_LOCAL_PLAYER_NAME_RVA) {
            Some(t) => {
                let mut bytes: Vec<u8> = Vec::new();
                let mut i: usize = 0;
                while i < name.len()
                    invariant
                        i <= name@.len(),
                        bytes@ == name@.take(i as int),
                    decreases name@.len() - i,
                {
                    bytes.push(name[i]);
                    i = i + 1;
                    assert(bytes@ =~= name@.take(i as int));
                }
                assert(name@.take(i as int) =~= name@);
                Ok((t, nul_terminated(bytes)))
            },
            None => Err(DirectClientError::NotReady),
        }
    }

    /// The write of a send rate: kind 0, 1 or 2 selects the on-foot,
    /// in-vehicle or aiming global, and the milliseconds must fit its
    /// signed field.
    pub fn send_rate_writes(self, kind: u8, milliseconds: u32) -> (r: Result<
        Vec<MemoryWrite>,
        DirectClientError,
    >)
        ensures
            edits_of(r) == (if kind > 2 || milliseconds > i32::MAX {
                Err(DirectClientError::NotReady)
            } else {
                match target_spec(self.module_base, send_rate_rva(send_rate_kind(kind))) {
                    None => Err(DirectClientError::NotReady),
                    Some(field) => Ok(seq![(field as int, le_bytes(milliseconds as nat, 4))]),
                }
            }),
    {
        let (selected, rate) = match send_rate_update(kind, milliseconds) {
            Ok(update) => update,
            Err(e) => {
                return Err(e);
            },
        };
        let rva = match selected {
            SendRateKind::OnFoot => ONFOOT_SEND_RATE_RVA,
            SendRateKind::InCar => INCAR_SEND_RATE_RVA,
            SendRateKind::Aim => AIM_SEND_RATE_RVA,
        };
        match target(self.module_base, rva) {
            Some(field) => {
                let mut writes: Vec<MemoryWrite> = Vec::new();
                writes.push(MemoryWrite { address: field, bytes: le_bytes_of(rate as u32, 4) });
                assert(writes_view(writes@) =~= seq![(field as int, le_bytes(milliseconds as nat, 4))]);
                Ok(writes)
            },
            None => Err(DirectClientError::NotReady),
        }
    }
}


/// The pool at `slot` of the pool table, with one readable byte, and the
/// function at `rva` to call on it, for an id below `limit`.
pub open spec fn pool_call_spec(mem: &ProcessMemory, base: usize, id: u16, limit: u16, slot: usize, rva: usize) -> Result<
    (usize, usize),
    DirectClientError,
> {
    if id >= limit {
        Err(DirectClientError::NotReady)
    } else {
        match pool_spec(mem, base, slot) {
            None => Err(DirectClientError::NotReady),
            Some(pool) => if !mem.readable(pool as int, 1) {
                Err(DirectClientError::NotReady)
            } else {
                match target_spec(base, rva) {
                    None => Err(DirectClientError::NotReady),
                    Some(t) => Ok((t, pool)),
                }
            },
        }
    }
}

impl R1ClientProfile {
    fn pool_function(self, mem: &ProcessMemory, id: u16, limit: u16, slot: usize, rva: usize) -> (r: Result<
        (usize, usize),
        DirectClientError,
    >)
        requires
            slot < 0x100,
        ensures
            r == pool_call_spec(mem, self.module_base, id, limit, slot, rva),
    {
        if id >= limit {
            return Err(DirectClientError::NotReady);
        }
        let pool = match self.pool(mem, slot) {
            Some(p) => p,
            None => {
                return Err(DirectClientError::NotReady);
            },
        };
        if !mem.readable_range(pool, 1) {
            return Err(DirectClientError::NotReady);
        }
        match target(self.module_base, rva) {
            Some(t) => Ok((t, pool)),
            None => Err(DirectClientError::NotReady),
        }
    }

    /// The label pool's delete function and the label pool, for a label id
    /// below the label limit; the delete's answer goes to `accepted`.
    pub fn delete_label_call(self, mem: &ProcessMemory, id: u16) -> (r: Result<(usize, usize), DirectClientError>)
        ensures
            r == pool_call_spec(
                mem,
                self.module_base,
                id,
                MAX_SAMP_TEXT_LABELS,
                NET_GAME_POOLS_LABEL_POOL_OFFSET,
                LABEL_POOL_DELETE_RVA,
            ),
    {
        self.pool_function(mem, id, MAX_SAMP_TEXT_LABELS, NET_GAME_POOLS_LABEL_POOL_OFFSET, LABEL_POOL_DELETE_RVA)
    }

    /// The textdraw pool's delete function and the textdraw pool, for a
    /// pool index below the textdraw limit.
    pub fn delete_textdraw_call(self, mem: &ProcessMemory, index: u16) -> (r: Result<
        (usize, usize),
        DirectClientError,
    >)
        ensures
            r == pool_call_spec(
                mem,
                self.module_base,
                index,
                MAX_SAMP_TEXTDRAWS,
                NET_GAME_POOLS_TEXTDRAW_POOL_OFFSET,
                TEXTDRAW_POOL_DELETE_RVA,
            ),
    {
        self.pool_function(mem, index, MAX_SAMP_TEXTDRAWS, NET_GAME_POOLS_TEXTDRAW_POOL_OFFSET, TEXTDRAW_POOL_DELETE_RVA)
    }
}


/// A call of the edit box's text setter at `target` on the edit box at
/// `object`, with the terminated text.
#[derive(Clone, Debug, PartialEq, Eq)]
pub struct TextCall {
    pub target: usize,
    pub object: usize,
    pub text: Vec<u8>,
}

/// The edit box whose pointer is at `offset` in the singleton at
/// `singleton_rva` (readable over `minimum` bytes), and the text setter, for
/// a text of at most `max` bytes without a zero byte: the pointer must be
/// non-null and one byte behind it readable.
pub open spec fn edit_box_call_spec(
    mem: &ProcessMemory,
    base: usize,
    singleton_rva: usize,
    minimum: int,
    offset: usize,
    max: int,
    text: Seq<u8>,
) -> Result<(usize, usize), DirectClientError> {
    if text.len() > max || has_byte(text, 0) {
        Err(DirectClientError::NotReady)
    } else {
        match singleton_spec(mem, base, singleton_rva, minimum) {
            None => Err(DirectClientError::NotReady),
            Some(owner) => match non_null_at(mem, owner + offset) {
                None => Err(DirectClientError::NotReady),
                Some(edit_box) => if !mem.readable(edit_box as int, 1) {
                    Err(DirectClientError::NotReady)
                } else {
                    match target_spec(base, DXUT_EDIT_BOX_SET_TEXT_RVA) {
                        None => Err(DirectClientError::NotReady),
                        Some(t) => Ok((t, edit_box)),
                    }
                },
            },
        }
    }
}

/// A setter call's result, by the target and object it calls.
pub open spec fn text_call_of(r: Result<TextCall, DirectClientError>) -> Result<(usize, usize), DirectClientError> {
    match r {
        Ok(c) => Ok((c.target, c.object)),
        Err(e) => Err(e),
    }
}

impl R1ClientProfile {
    fn edit_box_call(
        self,
        mem: &ProcessMemory,
        singleton_rva: usize,
        minimum: usize,
        offset: usize,
        max: usize,
        text: &[u8],
    ) -> (r: Result<TextCall, DirectClientError>)
        ensures
            text_call_of(r) == edit_box_call_spec(mem, self.module_base, singleton_rva, minimum as int, offset, max as int, text@),
            r matches Ok(c) ==> c.text@ == text@.push(0),
    {
        if text.len() > max || contains_byte(text, 0) {
            return Err(DirectClientError::NotReady);
        }
        let owner = match self.singleton(mem, singleton_rva, minimum) {
            Some(o) => o,
            None => {
                return Err(DirectClientError::NotReady);
            },
        };
        let edit_box = match offset_by(owner, offset) {
            Some(a) => non_null(mem, a),
            None => None,
        };
        let edit_box = match edit_box {
            Some(e) => e,
            None => {
                return Err(DirectClientError::NotReady);
            },
        };
        if !mem.readable_range(edit_box, 1) {
            return Err(DirectClientError::NotReady);
        }
        match target(self.module_base, DXUT_EDIT_BOX_SET_TEXT_RVA) {
            Some(t) => {
                let mut bytes: Vec<u8> = Vec::new();
                let mut i: usize = 0;
                while i < text.len()
                    invariant
                        i <= text@.len(),
                        bytes@ == text@.take(i as int),
                    decreases text@.len() - i,
                {
                    bytes.push(text[i]);
                    i = i + 1;
                    assert(bytes@ =~= text@.take(i as int));
                }
                assert(text@.take(i as int) =~= text@);
                Ok(TextCall { target: t, object: edit_box, text: nul_terminated(bytes) })
            },
            None => Err(DirectClientError::NotReady),
        }
    }

    /// The call that replaces the dialog's edit-box text with `text`, of at
    /// most 128 bytes without a zero byte.
    pub fn dialog_editbox_text_call(self, mem: &ProcessMemory, text: &[u8]) -> (r: Result<
        TextCall,
        DirectClientError,
    >)
        ensures
            text_call_of(r) == edit_box_call_spec(
                mem,
                self.module_base,
                DIALOG_SINGLETON_RVA,
                1,
                DIALOG_EDITBOX_OFFSET,
                MAX_DIALOG_EDITBOX_TEXT_BYTES as int,
                text@,
            ),
            r matches Ok(c) ==> c.text@ == text@.push(0),
    {
        self.edit_box_call(mem, DIALOG_SINGLETON_RVA, 1, DIALOG_EDITBOX_OFFSET, MAX_DIALOG_EDITBOX_TEXT_BYTES, text)
    }

    /// The call that replaces the chat input's text with `text`, of at most
    /// 128 bytes without a zero byte.
    pub fn chat_input_text_call(self, mem: &ProcessMemory, text: &[u8]) -> (r: Result<
        TextCall,
        DirectClientError,
    >)
        ensures
            text_call_of(r) == edit_box_call_spec(
                mem,
                self.module_base,
                INPUT_SINGLETON_RVA,
                INPUT_ENABLED_OFFSET + 4,
                INPUT_EDIT_BOX_OFFSET,
                MAX_CHAT_INPUT_TEXT_BYTES as int,
                text@,
            ),
            r matches Ok(c) ==> c.text@ == text@.push(0),
    {
        self.edit_box_call(
            mem,
            INPUT_SINGLETON_RVA,
            INPUT_ENABLED_OFFSET + 4,
            INPUT_EDIT_BOX_OFFSET,
            MAX_CHAT_INPUT_TEXT_BYTES,
            text,
        )
    }

    /// The input's function at `rva` (its open, close or process function)
    /// and the input.
    pub fn chat_input_call(self, mem: &ProcessMemory, rva: usize) -> (r: Result<(usize, usize), DirectClientError>)
        ensures
            r == (match singleton_spec(mem, self.module_base, INPUT_SINGLETON_RVA, INPUT_ENABLED_OFFSET + 4) {
                None => Err(DirectClientError::NotReady),
                Some(input) => match target_spec(self.module_base, rva) {
                    None => Err(DirectClientError::NotReady),
                    Some(t) => Ok((t, input)),
                },
            }),
    {
        let input = match self.singleton(mem, INPUT_SINGLETON_RVA, INPUT_ENABLED_OFFSET + 4) {
            Some(i) => i,
            None => {
                return Err(DirectClientError::NotReady);
            },
        };
        match target(self.module_base, rva) {
            Some(t) => Ok((t, input)),
            None => Err(DirectClientError::NotReady),
        }
    }

    /// The input's open or close function and the input.
    pub fn chat_input_enable_call(self, mem: &ProcessMemory, enabled: bool) -> (r: Result<
        (usize, usize),
        DirectClientError,
    >)
        ensures
            r == (match singleton_spec(mem, self.module_base, INPUT_SINGLETON_RVA, INPUT_ENABLED_OFFSET + 4) {
                None => Err(DirectClientError::NotReady),
                Some(input) => match target_spec(
                    self.module_base,
                    if enabled {
                        INPUT_OPEN_RVA
                    } else {
                        INPUT_CLOSE_RVA
                    },
                ) {
                    None => Err(DirectClientError::NotReady),
                    Some(t) => Ok((t, input)),
                },
            }),
    {
        self.chat_input_call(
            mem,
            if enabled {
                INPUT_OPEN_RVA
            } else {
                INPUT_CLOSE_RVA
            },
        )
    }

    /// The calls that process `text` as chat input: the text setter, then
    /// the input's process function.
    pub fn process_chat_input_calls(self, mem: &ProcessMemory, text: &[u8]) -> (r: Result<
        (TextCall, (usize, usize)),
        DirectClientError,
    >)
        ensures
            match r {
                Ok((c, p)) => text_call_of(Ok(c)) == edit_box_call_spec(
                    mem,
                    self.module_base,
                    INPUT_SINGLETON_RVA,
                    INPUT_ENABLED_OFFSET + 4,
                    INPUT_EDIT_BOX_OFFSET,
                    MAX_CHAT_INPUT_TEXT_BYTES as int,
                    text@,
                ) && c.text@ == text@.push(0) && singleton_spec(
                    mem,
                    self.module_base,
                    INPUT_SINGLETON_RVA,
                    INPUT_ENABLED_OFFSET + 4,
                ) == Some(p.1) && target_spec(self.module_base, INPUT_PROCESS_RVA) == Some(p.0),
                Err(e) => edit_box_call_spec(
                    mem,
                    self.module_base,
                    INPUT_SINGLETON_RVA,
                    INPUT_ENABLED_OFFSET + 4,
                    INPUT_EDIT_BOX_OFFSET,
                    MAX_CHAT_INPUT_TEXT_BYTES as int,
                    text@,
                ) == Err::<(usize, usize), DirectClientError>(e) || (edit_box_call_spec(
                    mem,
                    self.module_base,
                    INPUT_SINGLETON_RVA,
                    INPUT_ENABLED_OFFSET + 4,
                    INPUT_EDIT_BOX_OFFSET,
                    MAX_CHAT_INPUT_TEXT_BYTES as int,
                    text@,
                ) is Ok && e == DirectClientError::NotReady && target_spec(self.module_base, INPUT_PROCESS_RVA) is None),
            },
    {
        let set = match self.chat_input_text_call(mem, text) {
            Ok(c) => c,
            Err(e) => {
                return Err(e);
            },
        };
        match self.chat_input_call(mem, INPUT_PROCESS_RVA) {
            Ok(p) => Ok((set, p)),
            Err(e) => Err(e),
        }
    }
}


impl R1ClientProfile {
    /// The function at `rva` of the UI object whose singleton is at
    /// `singleton_rva` (the dialog, the chat or the death window, each with
    /// one readable byte), and that object: what showing a dialog, a chat
    /// line or a death message calls.
    pub fn ui_object_call(self, mem: &ProcessMemory, singleton_rva: usize, rva: usize) -> (r: Result<
        (usize, usize),
        DirectClientError,
    >)
        ensures
            r == (match singleton_spec(mem, self.module_base, singleton_rva, 1) {
                None => Err(DirectClientError::NotReady),
                Some(object) => match target_spec(self.module_base, rva) {
                    None => Err(DirectClientError::NotReady),
                    Some(t) => Ok((t, object)),
                },
            }),
    {
        let object = match self.singleton(mem, singleton_rva, 1) {
            Some(o) => o,
            None => {
                return Err(DirectClientError::NotReady);
            },
        };
        match target(self.module_base, rva) {
            Some(t) => Ok((t, object)),
            None => Err(DirectClientError::NotReady),
        }
    }
}

} // verus!
