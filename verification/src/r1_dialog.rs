//! The state of the R1 dialog: its style, id, caption, texts and list-box
//! items, copied from the dialog singleton.
//!
//! The edit box's text comes from the edit box's own getter, which the host
//! calls; the library finds the edit box and takes what the getter answered.

use vstd::prelude::*;
use crate::error::DirectClientError;
use crate::label_reads::offset_by;
use crate::memory::ProcessMemory;
use crate::r1_addresses::DIALOG_SINGLETON_RVA;
use crate::r1_layout::{
    DIALOG_ACTIVE_OFFSET, DIALOG_CAPTION_CAPACITY, DIALOG_CAPTION_OFFSET, DIALOG_EDITBOX_OFFSET,
    DIALOG_ID_OFFSET, DIALOG_LISTBOX_OFFSET, DIALOG_SERVER_SIDE_OFFSET, DIALOG_TYPE_OFFSET,
    DXUT_LISTBOX_ITEM_COUNT_OFFSET, DXUT_LISTBOX_SELECTED_OFFSET, MAX_DIALOG_EDITBOX_TEXT_BYTES,
    MAX_DIALOG_LISTBOX_ITEMS,
};
use crate::r1_reads::{i32_bool_at, pointer_at, singleton_spec};
use crate::r1_ui::{dialog_text_spec, listbox_item_spec};
use crate::selection::R1ClientProfile;

verus! {

/// The style of a dialog, as SA-MP numbers it.
#[derive(Clone, Copy, Debug, PartialEq, Eq, Structural)]
pub enum LocalDialogStyle {
    MessageBox,
    Input,
    List,
    Password,
    Tablist,
    TablistHeaders,
}

/// The style numbered `raw`, if there is one.
pub open spec fn style_of(raw: i32) -> Option<LocalDialogStyle> {
    if raw == 0 {
        Some(LocalDialogStyle::MessageBox)
    } else if raw == 1 {
        Some(LocalDialogStyle::Input)
    } else if raw == 2 {
        Some(LocalDialogStyle::List)
    } else if raw == 3 {
        Some(LocalDialogStyle::Password)
    } else if raw == 4 {
        Some(LocalDialogStyle::Tablist)
    } else if raw == 5 {
        Some(LocalDialogStyle::TablistHeaders)
    } else {
        None
    }
}

impl LocalDialogStyle {
    /// The number SA-MP gives the style.
    pub fn as_raw(self) -> (r: i32)
        ensures
            style_of(r) == Some(self),
            0 <= r <= 5,
    {
        match self {
            LocalDialogStyle::MessageBox => 0,
            LocalDialogStyle::Input => 1,
            LocalDialogStyle::List => 2,
            LocalDialogStyle::Password => 3,
            LocalDialogStyle::Tablist => 4,
            LocalDialogStyle::TablistHeaders => 5,
        }
    }

    /// The style numbered `raw`, if there is one.
    pub fn from_raw(raw: i32) -> (r: Option<LocalDialogStyle>)
        ensures
            r == style_of(raw),
    {
        if raw == 0 {
            Some(LocalDialogStyle::MessageBox)
        } else if raw == 1 {
            Some(LocalDialogStyle::Input)
        } else if raw == 2 {
            Some(LocalDialogStyle::List)
        } else if raw == 3 {
            Some(LocalDialogStyle::Password)
        } else if raw == 4 {
            Some(LocalDialogStyle::Tablist)
        } else if raw == 5 {
            Some(LocalDialogStyle::TablistHeaders)
        } else {
            None
        }
    }
}

/// The shown dialog.
#[derive(Clone, Debug, PartialEq, Eq)]
pub struct LocalDialogSnapshot {
    pub id: i32,
    pub style: LocalDialogStyle,
    pub title: Vec<u8>,
    pub server_side: bool,
    pub selected_item: Option<i32>,
    pub list_item_count: Option<i32>,
    pub text: Vec<u8>,
    pub editbox_text: Option<Vec<u8>>,
    pub listbox_items: Vec<Vec<u8>>,
}

/// The fields of a dialog snapshot, its texts as sequences.
pub struct LocalDialogView {
    pub id: i32,
    pub style: LocalDialogStyle,
    pub title: Seq<u8>,
    pub server_side: bool,
    pub selected_item: Option<i32>,
    pub list_item_count: Option<i32>,
    pub text: Seq<u8>,
    pub editbox_text: Option<Seq<u8>>,
    pub listbox_items: Seq<Seq<u8>>,
}

/// An optional text by its view.
pub open spec fn optional_text(t: Option<Vec<u8>>) -> Option<Seq<u8>> {
    match t {
        Some(v) => Some(v@),
        None => None,
    }
}

impl View for LocalDialogSnapshot {
    type V = LocalDialogView;

    open spec fn view(&self) -> LocalDialogView {
        LocalDialogView {
            id: self.id,
            style: self.style,
            title: self.title@,
            server_side: self.server_side,
            selected_item: self.selected_item,
            list_item_count: self.list_item_count,
            text: self.text@,
            editbox_text: optional_text(self.editbox_text),
            listbox_items: Seq::new(self.listbox_items@.len(), |i: int| self.listbox_items@[i]@),
        }
    }
}

/// The texts of the first `n` list-box items, the first failed read failing
/// them all.
pub open spec fn listbox_items_spec(mem: &ProcessMemory, base: usize, n: int) -> Result<
    Seq<Seq<u8>>,
    DirectClientError,
>
    decreases n,
{
    if n <= 0 {
        Ok(Seq::empty())
    } else {
        match listbox_items_spec(mem, base, n - 1) {
            Err(e) => Err(e),
            Ok(s) => match listbox_item_spec(mem, base, n - 1) {
                Err(e) => Err(e),
                Ok(t) => Ok(s.push(t)),
            },
        }
    }
}

/// Once an item read fails, every longer run of items fails the same way.
proof fn lemma_items_stay_failed(mem: &ProcessMemory, base: usize, i: int, n: int)
    requires
        0 <= i <= n,
        listbox_items_spec(mem, base, i) is Err,
    ensures
        listbox_items_spec(mem, base, n) == listbox_items_spec(mem, base, i),
    decreases n - i,
{
    if i < n {
        lemma_items_stay_failed(mem, base, i, n - 1);
    }
}

/// The list-box part of a dialog whose list box is at `listbox`: none of it
/// for a null list box; otherwise its selection, its item count (which must
/// not be negative) and the texts of at most the first hundred items.
pub open spec fn listbox_part_spec(mem: &ProcessMemory, base: usize, listbox: usize) -> Result<
    (Option<i32>, Option<i32>, Seq<Seq<u8>>),
    DirectClientError,
> {
    if listbox == 0 {
        Ok((None, None, Seq::empty()))
    } else if !mem.readable(listbox + DXUT_LISTBOX_SELECTED_OFFSET, 4) || !mem.readable(
        listbox + DXUT_LISTBOX_ITEM_COUNT_OFFSET,
        4,
    ) {
        Err(DirectClientError::NotReady)
    } else {
        let selected = mem.u32_at(listbox + DXUT_LISTBOX_SELECTED_OFFSET)->0 as i32;
        let count = mem.u32_at(listbox + DXUT_LISTBOX_ITEM_COUNT_OFFSET)->0 as i32;
        if count < 0 {
            Err(DirectClientError::NotReady)
        } else {
            let n = if count < MAX_DIALOG_LISTBOX_ITEMS {
                count as int
            } else {
                MAX_DIALOG_LISTBOX_ITEMS as int
            };
            match listbox_items_spec(mem, base, n) {
                Err(e) => Err(e),
                Ok(items) => Ok((Some(selected), Some(count), items)),
            }
        }
    }
}

/// The shown dialog, or `None` when no dialog is shown. The dialog must be
/// readable through its server-side flag; `editbox` is what reading the edit
/// box's text gave.
pub open spec fn dialog_state_spec(
    mem: &ProcessMemory,
    base: usize,
    editbox: Result<Option<Seq<u8>>, DirectClientError>,
) -> Result<Option<LocalDialogView>, DirectClientError> {
    match singleton_spec(mem, base, DIALOG_SINGLETON_RVA, 1) {
        None => Err(DirectClientError::NotReady),
        Some(dialog) => if !mem.readable(dialog as int, DIALOG_SERVER_SIDE_OFFSET + 4) {
            Err(DirectClientError::NotReady)
        } else {
            match i32_bool_at(mem, dialog + DIALOG_ACTIVE_OFFSET) {
                Err(e) => Err(e),
                Ok(false) => Ok(None),
                Ok(true) => {
                    let raw_style = mem.u32_at(dialog + DIALOG_TYPE_OFFSET)->0 as i32;
                    let id = mem.u32_at(dialog + DIALOG_ID_OFFSET)->0 as i32;
                    match (
                        style_of(raw_style),
                        mem.c_string(dialog + DIALOG_CAPTION_OFFSET, DIALOG_CAPTION_CAPACITY as int),
                        i32_bool_at(mem, dialog + DIALOG_SERVER_SIDE_OFFSET),
                        dialog_text_spec(mem, base),
                    ) {
                        (Some(style), Some(title), Ok(server_side), Ok(text)) => match editbox {
                            Err(e) => Err(e),
                            Ok(editbox_text) => match pointer_at(mem, dialog + DIALOG_LISTBOX_OFFSET) {
                                None => Err(DirectClientError::NotReady),
                                Some(listbox) => match listbox_part_spec(mem, base, listbox) {
                                    Err(e) => Err(e),
                                    Ok((selected_item, list_item_count, listbox_items)) => Ok(
                                        Some(
                                            LocalDialogView {
                                                id,
                                                style,
                                                title,
                                                server_side,
                                                selected_item,
                                                list_item_count,
                                                text,
                                                editbox_text,
                                                listbox_items,
                                            },
                                        ),
                                    ),
                                },
                            },
                        },
                        _ => Err(DirectClientError::NotReady),
                    }
                },
            }
        }
    }
}

/// The view of a dialog read's result.
pub open spec fn dialog_found(r: Result<Option<LocalDialogSnapshot>, DirectClientError>) -> Result<
    Option<LocalDialogView>,
    DirectClientError,
> {
    match r {
        Ok(Some(s)) => Ok(Some(s@)),
        Ok(None) => Ok(None),
        Err(e) => Err(e),
    }
}

/// What reading the edit box's text gave, by its view.
pub open spec fn editbox_found(r: Result<Option<Vec<u8>>, DirectClientError>) -> Result<
    Option<Seq<u8>>,
    DirectClientError,
> {
    match r {
        Ok(t) => Ok(optional_text(t)),
        Err(e) => Err(e),
    }
}

impl R1ClientProfile {
    /// The dialog's edit box: `None` when it has none; the edit box must be
    /// readable.
    pub fn dialog_editbox(self, mem: &ProcessMemory) -> (r: Result<Option<usize>, DirectClientError>)
        ensures
            r == (match singleton_spec(mem, self.module_base, DIALOG_SINGLETON_RVA, 1) {
                None => Err(DirectClientError::NotReady),
                Some(dialog) => match pointer_at(mem, dialog + DIALOG_EDITBOX_OFFSET) {
                    None => Err(DirectClientError::NotReady),
                    Some(editbox) => if editbox == 0 {
                        Ok(None)
                    } else if mem.readable(editbox as int, 1) {
                        Ok(Some(editbox))
                    } else {
                        Err(DirectClientError::NotReady)
                    },
                },
            }),
    {
        let dialog = match self.singleton(mem, DIALOG_SINGLETON_RVA, 1) {
            Some(d) => d,
            None => {
                return Err(DirectClientError::NotReady);
            },
        };
        let editbox = match offset_by(dialog, DIALOG_EDITBOX_OFFSET) {
            Some(a) => mem.read_pointer(a),
            None => None,
        };
        match editbox {
            None => Err(DirectClientError::NotReady),
            Some(e) => if e == 0 {
                Ok(None)
            } else if mem.readable_range(e, 1) {
                Ok(Some(e))
            } else {
                Err(DirectClientError::NotReady)
            },
        }
    }

    /// The edit box's text at the address its getter answered: terminated
    /// within one byte more than the edit-box limit.
    pub fn dialog_editbox_text_at(self, mem: &ProcessMemory, text: usize) -> (r: Result<
        Vec<u8>,
        DirectClientError,
    >)
        ensures
            match mem.c_string(text as int, MAX_DIALOG_EDITBOX_TEXT_BYTES + 1) {
                Some(s) => r matches Ok(v) && v@ == s,
                None => r == Err::<Vec<u8>, DirectClientError>(DirectClientError::NotReady),
            },
    {
        match mem.read_c_string(text, MAX_DIALOG_EDITBOX_TEXT_BYTES + 1) {
            Some(s) => Ok(s),
            None => Err(DirectClientError::NotReady),
        }
    }

    /// The texts of the first `n` list-box items.
    fn listbox_items(self, mem: &ProcessMemory, n: usize) -> (r: Result<Vec<Vec<u8>>, DirectClientError>)
        ensures
            match listbox_items_spec(mem, self.module_base, n as int) {
                Ok(s) => r matches Ok(v) && v@.len() == s.len() && forall|k: int|
                    0 <= k < s.len() ==> (#[trigger] v@[k])@ == s[k],
                Err(e) => r == Err::<Vec<Vec<u8>>, DirectClientError>(e),
            },
    {
        let mut items: Vec<Vec<u8>> = Vec::new();
        let mut i: usize = 0;
        while i < n
            invariant
                i <= n,
                listbox_items_spec(mem, self.module_base, i as int) matches Ok(s) && items@.len() == s.len()
                    && forall|k: int| 0 <= k < s.len() ==> (#[trigger] items@[k])@ == s[k],
            decreases n - i,
        {
            match self.dialog_listbox_item_text(mem, i) {
                Ok(t) => {
                    items.push(t);
                },
                Err(e) => {
                    proof {
                        lemma_items_stay_failed(mem, self.module_base, i as int + 1, n as int);
                    }
                    return Err(e);
                },
            }
            i = i + 1;
        }
        Ok(items)
    }

    /// The shown dialog, or `None` when no dialog is shown; `editbox` is what
    /// reading the edit box's text gave.
    pub fn dialog_state(self, mem: &ProcessMemory, editbox: Result<Option<Vec<u8>>, DirectClientError>) -> (r: Result<
        Option<LocalDialogSnapshot>,
        DirectClientError,
    >)
        ensures
            dialog_found(r) == dialog_state_spec(mem, self.module_base, editbox_found(editbox)),
    {
        let dialog = match self.singleton(mem, DIALOG_SINGLETON_RVA, 1) {
            Some(d) => d,
            None => {
                return Err(DirectClientError::NotReady);
            },
        };
        if !mem.readable_range(dialog, DIALOG_SERVER_SIDE_OFFSET + 4) {
            return Err(DirectClientError::NotReady);
        }
        match mem.read_i32_bool(dialog + DIALOG_ACTIVE_OFFSET) {
            Err(e) => {
                return Err(e);
            },
            Ok(false) => {
                return Ok(None);
            },
            Ok(true) => {},
        }
        proof {
            mem.lemma_readable_within(dialog as int, DIALOG_SERVER_SIDE_OFFSET + 4, DIALOG_TYPE_OFFSET as int, 4);
            mem.lemma_readable_within(dialog as int, DIALOG_SERVER_SIDE_OFFSET + 4, DIALOG_ID_OFFSET as int, 4);
        }
        let raw_style = match mem.read_u32(dialog + DIALOG_TYPE_OFFSET) {
            Some(v) => v as i32,
            None => {
                return Err(DirectClientError::NotReady);
            },
        };
        let style = match LocalDialogStyle::from_raw(raw_style) {
            Some(s) => s,
            None => {
                return Err(DirectClientError::NotReady);
            },
        };
        let id = match mem.read_u32(dialog + DIALOG_ID_OFFSET) {
            Some(v) => v as i32,
            None => {
                return Err(DirectClientError::NotReady);
            },
        };
        let title = match mem.read_c_string(dialog + DIALOG_CAPTION_OFFSET, DIALOG_CAPTION_CAPACITY) {
            Some(t) => t,
            None => {
                return Err(DirectClientError::NotReady);
            },
        };
        let server_side = match mem.read_i32_bool(dialog + DIALOG_SERVER_SIDE_OFFSET) {
            Ok(b) => b,
            Err(_) => {
                return Err(DirectClientError::NotReady);
            },
        };
        let text = match self.dialog_text(mem) {
            Ok(t) => t,
            Err(_) => {
                return Err(DirectClientError::NotReady);
            },
        };
        let editbox_text = match editbox {
            Ok(t) => t,
            Err(e) => {
                return Err(e);
            },
        };
        let listbox = match mem.read_pointer(dialog + DIALOG_LISTBOX_OFFSET) {
            Some(l) => l,
            None => {
                return Err(DirectClientError::NotReady);
            },
        };
        if listbox == 0 {
            let snapshot = LocalDialogSnapshot {
                id,
                style,
                title,
                server_side,
                selected_item: None,
                list_item_count: None,
                text,
                editbox_text,
                listbox_items: Vec::new(),
            };
            proof {
                assert(snapshot@.listbox_items =~= Seq::<Seq<u8>>::empty());
            }
            return Ok(Some(snapshot));
        }
        let selected_at = offset_by(listbox, DXUT_LISTBOX_SELECTED_OFFSET);
        let count_at = offset_by(listbox, DXUT_LISTBOX_ITEM_COUNT_OFFSET);
        let (selected_at, count_at) = match (selected_at, count_at) {
            (Some(a), Some(b)) => (a, b),
            _ => {
                return Err(DirectClientError::NotReady);
            },
        };
        if !mem.readable_range(selected_at, 4) || !mem.readable_range(count_at, 4) {
            return Err(DirectClientError::NotReady);
        }
        let selected = match mem.read_u32(selected_at) {
            Some(v) => v as i32,
            None => {
                return Err(DirectClientError::NotReady);
            },
        };
        let count = match mem.read_u32(count_at) {
            Some(v) => v as i32,
            None => {
                return Err(DirectClientError::NotReady);
            },
        };
        if count < 0 {
            return Err(DirectClientError::NotReady);
        }
        let n = if (count as usize) < MAX_DIALOG_LISTBOX_ITEMS {
            count as usize
        } else {
            MAX_DIALOG_LISTBOX_ITEMS
        };
        let listbox_items = match self.listbox_items(mem, n) {
            Ok(items) => items,
            Err(e) => {
                return Err(e);
            },
        };
        let snapshot = LocalDialogSnapshot {
            id,
            style,
            title,
            server_side,
            selected_item: Some(selected),
            list_item_count: Some(count),
            text,
            editbox_text,
            listbox_items,
        };
        proof {
            let s = listbox_items_spec(mem, self.module_base, n as int)->Ok_0;
            assert(snapshot@.listbox_items =~= s);
        }
        Ok(Some(snapshot))
    }
}

} // verus!
