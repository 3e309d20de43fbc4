//! The schema of the `settings` table: its name, its columns and the type
//! of each, the defaults of its boolean and position columns, and the check
//! on its position column.

use crate::window::{position_named, ClippyPosition};
use vstd::prelude::*;

verus! {

/// The settings table.
#[derive(Debug, Clone, Copy, PartialEq, Eq, Default)]
pub struct Entity;

impl Entity {
    /// The name of the table.
    pub fn table_name(&self) -> (name: &'static str)
        ensures
            name@ == "settings"@,
    {
        "settings"
    }
}

/// The columns of the settings table.
#[derive(Debug, Clone, Copy, PartialEq, Eq)]
pub enum Column {
    Id,
    Language,
    Startup,
    Synchronize,
    DarkMode,
    Tooltip,
    DisplayScale,
    Position,
    MaxFileSize,
    MaxImageSize,
    MaxTextSize,
    MaxRtfSize,
    MaxHtmlSize,
}

/// The length limit of a string column.
#[derive(Debug, Clone, Copy, PartialEq, Eq)]
pub enum StringLen {
    /// At most this many characters.
    N(u32),
    /// No limit.
    Unbounded,
}

/// The type of a column.
#[derive(Debug, Clone, Copy, PartialEq, Eq)]
pub enum ColumnType {
    Integer,
    String(StringLen),
    Boolean,
    Float,
}

/// The type of each column of the settings table.
pub open spec fn column_type(c: Column) -> ColumnType {
    match c {
        Column::Id => ColumnType::Integer,
        Column::Language => ColumnType::String(StringLen::N(2)),
        Column::Startup => ColumnType::Boolean,
        Column::Synchronize => ColumnType::Boolean,
        Column::DarkMode => ColumnType::Boolean,
        Column::Tooltip => ColumnType::Boolean,
        Column::DisplayScale => ColumnType::Float,
        Column::Position => ColumnType::String(StringLen::Unbounded),
        Column::MaxFileSize => ColumnType::Integer,
        Column::MaxImageSize => ColumnType::Integer,
        Column::MaxTextSize => ColumnType::Integer,
        Column::MaxRtfSize => ColumnType::Integer,
        Column::MaxHtmlSize => ColumnType::Integer,
    }
}

impl Column {
    /// The type of the column.
    pub fn def(&self) -> (t: ColumnType)
        ensures
            t == column_type(*self),
    {
        match self {
            Column::Id => ColumnType::Integer,
            Column::Language => ColumnType::String(StringLen::N(2)),
            Column::Startup => ColumnType::Boolean,
            Column::Synchronize => ColumnType::Boolean,
            Column::DarkMode => ColumnType::Boolean,
            Column::Tooltip => ColumnType::Boolean,
            Column::DisplayScale => ColumnType::Float,
            Column::Position => ColumnType::String(StringLen::Unbounded),
            Column::MaxFileSize => ColumnType::Integer,
            Column::MaxImageSize => ColumnType::Integer,
            Column::MaxTextSize => ColumnType::Integer,
            Column::MaxRtfSize => ColumnType::Integer,
            Column::MaxHtmlSize => ColumnType::Integer,
        }
    }
}

/// The primary key of the settings table.
#[derive(Debug, Clone, Copy, PartialEq, Eq)]
pub enum PrimaryKey {
    Id,
}

impl PrimaryKey {
    /// Whether the database assigns the key: it does.
    pub fn auto_increment() -> (r: bool)
        ensures
            r,
    {
        true
    }
}

/// The default of each boolean column: start with the system, dark mode and
/// tooltips on, synchronisation off. Other columns have no boolean default.
pub open spec fn flag_default(c: Column) -> Option<bool> {
    match c {
        Column::Startup => Some(true),
        Column::Synchronize => Some(false),
        Column::DarkMode => Some(true),
        Column::Tooltip => Some(true),
        _ => None,
    }
}

impl Column {
    /// The default of a boolean column, `None` for the other columns.
    pub fn flag_default(&self) -> (d: Option<bool>)
        ensures
            d == flag_default(*self),
    {
        match self {
            Column::Startup => Some(true),
            Column::Synchronize => Some(false),
            Column::DarkMode => Some(true),
            Column::Tooltip => Some(true),
            _ => None,
        }
    }
}

/// The position a new settings row starts with: next to the cursor.
pub fn default_position() -> (p: ClippyPosition)
    ensures
        p == ClippyPosition::Cursor,
{
    ClippyPosition::Cursor
}

/// The check on the position column: the value is the name of a position.
pub fn position_value_allowed(value: &str) -> (ok: bool)
    ensures
        ok == (position_named(value@) is Some),
{
    ClippyPosition::from_name(value).is_some()
}

} // verus!
