//! Modern widgets: avatars, badges, breadcrumbs, buttons, cards, dialogs,
//! dividers, dropdowns, search bars, skeletons, switches, tables and tabs.
pub mod avatar;
pub mod badge;
pub mod breadcrumbs;
pub mod button;
pub mod card;
pub mod dialog;
pub mod divider;
pub mod dropdown;
pub mod search_bar;
pub mod skeleton;
pub mod switch;
pub mod table;
pub mod tabs;
