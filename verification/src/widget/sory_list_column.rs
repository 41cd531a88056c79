//! List columns of the SoryOS look: the padding of their items and
//! dividers, in the page style or the context-drawer style.
use vstd::prelude::*;
use iced_core::Padding;
use crate::measure::{padding_from_vh, padding_vh};

verus! {

/// The background a list column is drawn on.
#[derive(Debug, Clone, Copy, PartialEq, Eq, Structural)]
pub enum ListLook {
    /// A section of a page.
    Section,
    /// The content of a context drawer.
    ContextContent,
}

/// How a list column is set up: its look, the room reserved for its items,
/// the padding of each item and the inset of the dividers between them.
pub struct ListColumnStyle {
    pub look: ListLook,
    pub capacity: usize,
    pub item_padding: Padding,
    pub divider_padding: u16,
}

/// A page-style list column with room for four items.
pub fn sory_list_column() -> (r: ListColumnStyle)
    ensures
        r.look == ListLook::Section,
        r.capacity == 4,
        r.item_padding == padding_vh(14, 20),
        r.divider_padding == 20,
{
    sory_list_column_with_capacity(4)
}

/// A page-style list column: items padded 14 by 20, dividers inset by 20.
pub fn sory_list_column_with_capacity(capacity: usize) -> (r: ListColumnStyle)
    ensures
        r.look == ListLook::Section,
        r.capacity == capacity,
        r.item_padding == padding_vh(14, 20),
        r.divider_padding == 20,
{
    ListColumnStyle { look: ListLook::Section, capacity, item_padding: padding_from_vh(14, 20), divider_padding: 20 }
}

/// A context-drawer list column with room for four items.
pub fn sory_context_list_column() -> (r: ListColumnStyle)
    ensures
        r.look == ListLook::ContextContent,
        r.capacity == 4,
        r.item_padding == padding_vh(9, 14),
        r.divider_padding == 14,
{
    sory_context_list_column_with_capacity(4)
}

/// A context-drawer list column: items padded 9 by 14, dividers inset by
/// 14.
pub fn sory_context_list_column_with_capacity(capacity: usize) -> (r: ListColumnStyle)
    ensures
        r.look == ListLook::ContextContent,
        r.capacity == capacity,
        r.item_padding == padding_vh(9, 14),
        r.divider_padding == 14,
{
    ListColumnStyle { look: ListLook::ContextContent, capacity, item_padding: padding_from_vh(9, 14), divider_padding: 14 }
}

/// A settings section: a page-style list column with room for four items.
pub struct SettingsSection {
    pub column: ListColumnStyle,
}

/// A settings section around a page-style list column.
pub fn sory_settings_section() -> (r: SettingsSection)
    ensures
        r.column.look == ListLook::Section,
        r.column.capacity == 4,
        r.column.item_padding == padding_vh(14, 20),
        r.column.divider_padding == 20,
{
    SettingsSection { column: sory_list_column_with_capacity(4) }
}

} // verus!
