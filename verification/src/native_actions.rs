//! The UI operations of a build with profile data that call one of the
//! client's functions once their arguments and objects have been checked:
//! each answers the call the host is to make, or the failure before it.

use vstd::prelude::*;
use crate::bits::le_bytes;
use crate::bitstream::le_bytes_of;
use crate::commands::valid_command_name;
use crate::error::DirectClientError;
use crate::label_reads::{NativeReader, label_pool_spec, offset_by};
use crate::local_reads::function_target_spec;
use crate::memory::{MemoryWrite, ProcessMemory};
use crate::players::{SendRateKind, is_special_action, send_rate_update, valid_special_action};
use crate::r1_actions::{CommandRegistration, CursorCall, TextCall, send_rate_kind, text_call_of};
use crate::r1_textdraw_edits::{edits_of, writes_view};
use crate::text::{contains_byte, has_byte, nul_terminated};
use crate::r1_reads::{pointer_at, resolve_singleton, singleton_spec};

verus! {

impl NativeReader {
    /// The cursor-mode call for `mode`, owed for modes 0 to 4 only: the
    /// game, readable through its cursor mode, and the profile's setter,
    /// whose code must be readable; the mode locks the controls unless it is
    /// 0.
    pub open spec fn cursor_call_spec(&self, mem: &ProcessMemory, mode: i32) -> Result<
        CursorCall,
        DirectClientError,
    > {
        if !(0 <= mode <= 4) {
            Err(DirectClientError::NotReady)
        } else {
            match self.game_spec(mem) {
                None => Err(DirectClientError::NotReady),
                Some(game) => match function_target_spec(
                    mem,
                    self.module_base,
                    self.spec.ui.game.set_cursor_mode_rva.0,
                ) {
                    Err(e) => Err(e),
                    Ok(t) => Ok(
                        CursorCall {
                            target: t,
                            game,
                            mode,
                            lock: if mode != 0 {
                                1
                            } else {
                                0
                            },
                        },
                    ),
                },
            }
        }
    }

    /// The cursor-mode call for `mode`.
    pub fn cursor_mode_call(&self, mem: &ProcessMemory, mode: i32) -> (r: Result<CursorCall, DirectClientError>)
        ensures
            r == self.cursor_call_spec(mem, mode),
    {
        if mode < 0 || mode > 4 {
            return Err(DirectClientError::NotReady);
        }
        let game = match self.singleton_through(
            mem,
            self.spec.ui.game.singleton_rva.0,
            self.spec.ui.game.cursor_mode_offset.0,
        ) {
            Some(g) => g,
            None => {
                return Err(DirectClientError::NotReady);
            },
        };
        match self.function_target(mem, self.spec.ui.game.set_cursor_mode_rva.0) {
            Ok(t) => Ok(
                CursorCall {
                    target: t,
                    game,
                    mode,
                    lock: if mode != 0 {
                        1
                    } else {
                        0
                    },
                },
            ),
            Err(e) => Err(e),
        }
    }

    /// The calls that show (mode 3) or hide (mode 0) the cursor; hiding it
    /// also hands the controls back through the profile's input-enabling
    /// function, called on the same game.
    pub fn toggle_cursor_calls(&self, mem: &ProcessMemory, show: bool) -> (r: Result<
        (CursorCall, Option<usize>),
        DirectClientError,
    >)
        ensures
            r == (match self.cursor_call_spec(
                mem,
                if show {
                    3
                } else {
                    0
                },
            ) {
                Err(e) => Err(e),
                Ok(c) => if show {
                    Ok((c, None))
                } else {
                    match function_target_spec(
                        mem,
                        self.module_base,
                        self.spec.ui.game.process_input_enabling_rva.0,
                    ) {
                        Err(e) => Err(e),
                        Ok(t) => Ok((c, Some(t))),
                    }
                },
            }),
    {
        let call = match self.cursor_mode_call(
            mem,
            if show {
                3
            } else {
                0
            },
        ) {
            Ok(c) => c,
            Err(e) => {
                return Err(e);
            },
        };
        if show {
            Ok((call, None))
        } else {
            match self.function_target(mem, self.spec.ui.game.process_input_enabling_rva.0) {
                Ok(t) => Ok((call, Some(t))),
                Err(e) => Err(e),
            }
        }
    }

    /// The functions that register chat command `name`, by the profile's
    /// input layout: the name must be a valid command name, the input must
    /// hold fewer commands than the table can take, and the handler lookup
    /// and the registration must have readable code.
    pub fn command_registration(&self, mem: &ProcessMemory, name: &[u8]) -> (r: Result<
        CommandRegistration,
        DirectClientError,
    >)
        ensures
            r == (if !valid_command_name(name@, self.spec.ui.input.max_command_name_bytes.0 as int) {
                Err(DirectClientError::NotReady)
            } else {
                match self.input_spec(mem) {
                    None => Err(DirectClientError::NotReady),
                    Some(input) => match mem.u32_at(input + self.spec.ui.input.command_count_offset.0) {
                        None => Err(DirectClientError::NotReady),
                        Some(count) => if !(0 <= (count as i32) && (count as i32)
                            < self.spec.ui.input.max_commands.0) {
                            Err(DirectClientError::NotReady)
                        } else {
                            match (
                                function_target_spec(
                                    mem,
                                    self.module_base,
                                    self.spec.ui.input.get_command_handler_rva.0,
                                ),
                                function_target_spec(mem, self.module_base, self.spec.ui.input.add_command_rva.0),
                            ) {
                                (Ok(g), Ok(a)) => Ok(
                                    CommandRegistration { input, get_handler: g, add_command: a },
                                ),
                                _ => Err(DirectClientError::NotReady),
                            }
                        },
                    },
                }
            }),
    {
        let layout = self.spec.ui.input;
        if name.len() == 0 || name.len() > layout.max_command_name_bytes.0 || contains_byte(name, 0) {
            return Err(DirectClientError::NotReady);
        }
        let input = match self.singleton_through(mem, layout.singleton_rva.0, layout.enabled_offset.0) {
            Some(i) => i,
            None => {
                return Err(DirectClientError::NotReady);
            },
        };
        let count = match offset_by(input, layout.command_count_offset.0) {
            Some(a) => match mem.read_u32(a) {
                Some(c) => c as i32,
                None => {
                    return Err(DirectClientError::NotReady);
                },
            },
            None => {
                proof {
                    assert(!mem.readable(input + layout.command_count_offset.0, 4));
                }
                return Err(DirectClientError::NotReady);
            },
        };
        if count < 0 || count as usize >= layout.max_commands.0 {
            return Err(DirectClientError::NotReady);
        }
        match (
            self.function_target(mem, layout.get_command_handler_rva.0),
            self.function_target(mem, layout.add_command_rva.0),
        ) {
            (Ok(g), Ok(a)) => Ok(CommandRegistration { input, get_handler: g, add_command: a }),
            _ => Err(DirectClientError::NotReady),
        }
    }
}


impl NativeReader {
    /// The RVA of the profile's send-rate global of a kind.
    pub open spec fn send_rate_rva_spec(&self, kind: SendRateKind) -> usize {
        match kind {
            SendRateKind::OnFoot => self.spec.sync.send_rates.onfoot.0,
            SendRateKind::InCar => self.spec.sync.send_rates.incar.0,
            SendRateKind::Aim => self.spec.sync.send_rates.aim.0,
        }
    }

    /// The profile's special-action setter, for the actions the local
    /// player may be given (0 to 12, 20 to 25 and 68); any other action
    /// fails first. The setter's code must be readable.
    pub fn special_action_target(&self, mem: &ProcessMemory, action: u8) -> (r: Result<usize, DirectClientError>)
        ensures
            r == (if !is_special_action(action) {
                Err(DirectClientError::NotReady)
            } else {
                function_target_spec(mem, self.module_base, self.spec.players.local_rvas.set_special_action.0)
            }),
    {
        if !valid_special_action(action) {
            return Err(DirectClientError::NotReady);
        }
        self.function_target(mem, self.spec.players.local_rvas.set_special_action.0)
    }

    /// The profile's spawn function, whose answer goes to `accepted`.
    pub fn spawn_target(&self, mem: &ProcessMemory) -> (r: Result<usize, DirectClientError>)
        ensures
            r == function_target_spec(mem, self.module_base, self.spec.players.local_rvas.spawn.0),
    {
        self.function_target(mem, self.spec.players.local_rvas.spawn.0)
    }

    /// The player pool's name setter and the terminated name, for a name no
    /// longer than the profile's name capacity and without a zero byte.
    pub fn local_name_call(&self, mem: &ProcessMemory, name: &[u8]) -> (r: Result<
        (usize, Vec<u8>),
        DirectClientError,
    >)
        ensures
            match r {
                Ok((t, bytes)) => name@.len() <= self.spec.players.local_player_name_capacity.0
                    && !has_byte(name@, 0) && function_target_spec(
                    mem,
                    self.module_base,
                    self.spec.players.pool_rvas.set_local_player_name.0,
                ) == Ok::<usize, DirectClientError>(t) && bytes@ == name@.push(0),
                Err(e) => if name@.len() > self.spec.players.local_player_name_capacity.0 || has_byte(
                    name@,
                    0,
                ) {
                    e == DirectClientError::NotReady
                } else {
                    function_target_spec(
                        mem,
                        self.module_base,
                        self.spec.players.pool_rvas.set_local_player_name.0,
                    ) == Err::<usize, DirectClientError>(e)
                },
            },
    {
        if name.len() > self.spec.players.local_player_name_capacity.0 || contains_byte(name, 0) {
            return Err(DirectClientError::NotReady);
        }
        match self.function_target(mem, self.spec.players.pool_rvas.set_local_player_name.0) {
            Ok(t) => {
                let mut bytes: Vec<u8> = Vec::new();
                let mut i: usize = 0;
                while i < name.len()
                    invariant
                        i <= name@.len(),
                        bytes@ == name@.take(i as int),
                    decreases name@.len() - i,
                {
                    bytes.push(name[i]);
                    i = i + 1;
                    assert(bytes@ =~= name@.take(i as int));
                }
                assert(name@.take(i as int) =~= name@);
                Ok((t, nul_terminated(bytes)))
            },
            Err(e) => Err(e),
        }
    }

    /// The write of a send rate: kind 0, 1 or 2 selects the profile's
    /// on-foot, in-vehicle or aiming global, and the milliseconds must fit
    /// its signed field.
    pub fn send_rate_writes(&self, kind: u8, milliseconds: u32) -> (r: Result<
        Vec<MemoryWrite>,
        DirectClientError,
    >)
        ensures
            edits_of(r) == (if kind > 2 || milliseconds > i32::MAX {
                Err(DirectClientError::NotReady)
            } else if self.module_base + self.send_rate_rva_spec(send_rate_kind(kind)) > usize::MAX {
                Err(DirectClientError::NotReady)
            } else {
                Ok(
                    seq![
                        (
                            self.module_base + self.send_rate_rva_spec(send_rate_kind(kind)),
                            le_bytes(milliseconds as nat, 4),
                        ),
                    ],
                )
            }),
    {
        let (selected, rate) = match send_rate_update(kind, milliseconds) {
            Ok(update) => update,
            Err(e) => {
                return Err(e);
            },
        };
        let rva = match selected {
            SendRateKind::OnFoot => self.spec.sync.send_rates.onfoot.0,
            SendRateKind::InCar => self.spec.sync.send_rates.incar.0,
            SendRateKind::Aim => self.spec.sync.send_rates.aim.0,
        };
        match offset_by(self.module_base, rva) {
            Some(field) => {
                let mut writes: Vec<MemoryWrite> = Vec::new();
                writes.push(MemoryWrite { address: field, bytes: le_bytes_of(rate as u32, 4) });
                assert(writes_view(writes@) =~= seq![(field as int, le_bytes(milliseconds as nat, 4))]);
                Ok(writes)
            },
            None => Err(DirectClientError::NotReady),
        }
    }
}


impl NativeReader {
    /// The label pool's delete function and the label pool, for a label id
    /// below the profile's label limit; the delete's answer goes to
    /// `accepted`.
    pub fn delete_label_call(&self, mem: &ProcessMemory, id: u16) -> (r: Result<(usize, usize), DirectClientError>)
        ensures
            r == (if id >= self.spec.pools.limits.text_labels.0 {
                Err(DirectClientError::NotReady)
            } else {
                match label_pool_spec(mem, self.module_base, self.spec) {
                    None => Err(DirectClientError::NotReady),
                    Some(pool) => match function_target_spec(mem, self.module_base, self.spec.text_labels.delete_rva.0) {
                        Err(e) => Err(e),
                        Ok(t) => Ok((t, pool)),
                    },
                }
            }),
    {
        if id as usize >= self.spec.pools.limits.text_labels.0 {
            return Err(DirectClientError::NotReady);
        }
        let pool = match self.label_pool(mem) {
            Some(p) => p,
            None => {
                return Err(DirectClientError::NotReady);
            },
        };
        match self.function_target(mem, self.spec.text_labels.delete_rva.0) {
            Ok(t) => Ok((t, pool)),
            Err(e) => Err(e),
        }
    }

    /// The textdraw pool's delete function and the textdraw pool, for a
    /// textdraw id below the profile's textdraw limit.
    pub fn delete_textdraw_call(&self, mem: &ProcessMemory, id: u16) -> (r: Result<(usize, usize), DirectClientError>)
        ensures
            r == (match self.textdraw_pool_spec(mem) {
                None => Err(DirectClientError::NotReady),
                Some(pool) => if id >= self.spec.pools.limits.textdraws.0 {
                    Err(DirectClientError::NotReady)
                } else {
                    match function_target_spec(mem, self.module_base, self.spec.textdraws.delete_rva.0) {
                        Err(e) => Err(e),
                        Ok(t) => Ok((t, pool)),
                    }
                },
            }),
    {
        let pool = match self.textdraw_pool(mem) {
            Some(p) => p,
            None => {
                return Err(DirectClientError::NotReady);
            },
        };
        if id as usize >= self.spec.pools.limits.textdraws.0 {
            return Err(DirectClientError::NotReady);
        }
        match self.function_target(mem, self.spec.textdraws.delete_rva.0) {
            Ok(t) => Ok((t, pool)),
            Err(e) => Err(e),
        }
    }
}


impl NativeReader {
    /// The chat's add-entry function and the chat, for a text and a prefix
    /// without a zero byte.
    pub fn chat_message_call(&self, mem: &ProcessMemory, text: &[u8], prefix: &[u8]) -> (r: Result<
        (usize, usize),
        DirectClientError,
    >)
        ensures
            r == (if has_byte(text@, 0) || has_byte(prefix@, 0) {
                Err(DirectClientError::NotReady)
            } else {
                match self.chat_spec(mem) {
                    None => Err(DirectClientError::NotReady),
                    Some(chat) => match function_target_spec(mem, self.module_base, self.spec.ui.chat.add_entry_rva.0) {
                        Err(e) => Err(e),
                        Ok(t) => Ok((t, chat)),
                    },
                }
            }),
    {
        if contains_byte(text, 0) || contains_byte(prefix, 0) {
            return Err(DirectClientError::NotReady);
        }
        let chat = match resolve_singleton(mem, self.module_base, self.spec.ui.chat.singleton_rva.0, 1) {
            Some(c) => c,
            None => {
                return Err(DirectClientError::NotReady);
            },
        };
        match self.function_target(mem, self.spec.ui.chat.add_entry_rva.0) {
            Ok(t) => Ok((t, chat)),
            Err(e) => Err(e),
        }
    }

    /// The death window's add-message function and the death window, for
    /// names without a zero byte; a build without a death window, or
    /// without its add-message function, has neither.
    pub fn death_message_call(&self, mem: &ProcessMemory, killer: &[u8], victim: &[u8]) -> (r: Result<
        (usize, usize),
        DirectClientError,
    >)
        ensures
            r == (if has_byte(killer@, 0) || has_byte(victim@, 0) {
                Err(DirectClientError::NotReady)
            } else {
                match self.spec.ui.death_window.singleton_rva {
                    None => Err(DirectClientError::NotReady),
                    Some(singleton) => match singleton_spec(mem, self.module_base, singleton.0, 1) {
                        None => Err(DirectClientError::NotReady),
                        Some(window) => match self.spec.ui.death_window.add_message_rva {
                            None => Err(DirectClientError::NotReady),
                            Some(add) => match function_target_spec(mem, self.module_base, add.0) {
                                Err(e) => Err(e),
                                Ok(t) => Ok((t, window)),
                            },
                        },
                    },
                }
            }),
    {
        if contains_byte(killer, 0) || contains_byte(victim, 0) {
            return Err(DirectClientError::NotReady);
        }
        let singleton = match self.spec.ui.death_window.singleton_rva {
            Some(r) => r,
            None => {
                return Err(DirectClientError::NotReady);
            },
        };
        let window = match resolve_singleton(mem, self.module_base, singleton.0, 1) {
            Some(w) => w,
            None => {
                return Err(DirectClientError::NotReady);
            },
        };
        let add = match self.spec.ui.death_window.add_message_rva {
            Some(r) => r,
            None => {
                return Err(DirectClientError::NotReady);
            },
        };
        match self.function_target(mem, add.0) {
            Ok(t) => Ok((t, window)),
            Err(e) => Err(e),
        }
    }

    /// The input's function at `rva` (its open, close or process function)
    /// and the input, readable through its enabled flag.
    pub fn input_call(&self, mem: &ProcessMemory, rva: usize) -> (r: Result<(usize, usize), DirectClientError>)
        ensures
            r == (match self.input_spec(mem) {
                None => Err(DirectClientError::NotReady),
                Some(input) => match function_target_spec(mem, self.module_base, rva) {
                    Err(e) => Err(e),
                    Ok(t) => Ok((t, input)),
                },
            }),
    {
        let input = match self.singleton_through(mem, self.spec.ui.input.singleton_rva.0, self.spec.ui.input.enabled_offset.0) {
            Some(i) => i,
            None => {
                return Err(DirectClientError::NotReady);
            },
        };
        match self.function_target(mem, rva) {
            Ok(t) => Ok((t, input)),
            Err(e) => Err(e),
        }
    }
}


impl NativeReader {
    /// The chat input's edit box and the profile's text setter (which the
    /// build must have), for a text
    /// no longer than the profile's input limit and without a zero byte:
    /// the input must be readable through its enabled flag, its edit-box
    /// pointer readable, non-null, and one byte behind it readable.
    pub open spec fn chat_input_text_spec(&self, mem: &ProcessMemory, text: Seq<u8>) -> Result<
        (usize, usize),
        DirectClientError,
    > {
        let l = self.spec.ui.input;
        match self.input_spec(mem) {
            None => Err(DirectClientError::NotReady),
            Some(input) => if input + l.edit_box_offset.0 > usize::MAX {
                Err(DirectClientError::NotReady)
            } else {
                match pointer_at(mem, input + l.edit_box_offset.0) {
                    None => Err(DirectClientError::NotReady),
                    Some(edit_box) => if text.len() > l.max_text_bytes.0 || has_byte(text, 0) || edit_box == 0
                        || !mem.readable(edit_box as int, 1) {
                        Err(DirectClientError::NotReady)
                    } else {
                        match l.edit_box_set_text_rva {
                            None => Err(DirectClientError::NotReady),
                            Some(setter) => match function_target_spec(mem, self.module_base, setter.0) {
                                Err(e) => Err(e),
                                Ok(t) => Ok((t, edit_box)),
                            },
                        }
                    },
                }
            },
        }
    }

    /// The call that replaces the chat input's text with `text`.
    pub fn chat_input_text_call(&self, mem: &ProcessMemory, text: &[u8]) -> (r: Result<TextCall, DirectClientError>)
        ensures
            text_call_of(r) == self.chat_input_text_spec(mem, text@),
            r matches Ok(c) ==> c.text@ == text@.push(0),
    {
        let l = self.spec.ui.input;
        let input = match self.singleton_through(mem, l.singleton_rva.0, l.enabled_offset.0) {
            Some(i) => i,
            None => {
                return Err(DirectClientError::NotReady);
            },
        };
        let slot = match offset_by(input, l.edit_box_offset.0) {
            Some(a) => a,
            None => {
                return Err(DirectClientError::NotReady);
            },
        };
        let edit_box = match mem.read_pointer(slot) {
            Some(e) => e,
            None => {
                return Err(DirectClientError::NotReady);
            },
        };
        if text.len() > l.max_text_bytes.0 || contains_byte(text, 0) || edit_box == 0 || !mem.readable_range(edit_box, 1) {
            return Err(DirectClientError::NotReady);
        }
        let setter = match l.edit_box_set_text_rva {
            Some(r) => r,
            None => {
                return Err(DirectClientError::NotReady);
            },
        };
        match self.function_target(mem, setter.0) {
            Ok(t) => {
                let mut bytes: Vec<u8> = Vec::new();
                let mut i: usize = 0;
                while i < text.len()
                    invariant
                        i <= text@.len(),
                        bytes@ == text@.take(i as int),
                    decreases text@.len() - i,
                {
                    bytes.push(text[i]);
                    i = i + 1;
                    assert(bytes@ =~= text@.take(i as int));
                }
                assert(text@.take(i as int) =~= text@);
                Ok(TextCall { target: t, object: edit_box, text: nul_terminated(bytes) })
            },
            Err(e) => Err(e),
        }
    }
}

} // verus!
