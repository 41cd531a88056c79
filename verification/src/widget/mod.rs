//! Widget models of the SoryOS design system: the state and configuration
//! that widgets are built from.
pub mod anim;
pub mod modern;
pub mod sory_breadcrumb;
pub mod sory_card;
pub mod sory_dialog;
pub mod sory_list_column;
pub mod sory_modal;
pub mod sory_nav;
pub mod sory_page;
pub mod sory_popover;
pub mod sory_tabs;
pub mod sory_toast;
