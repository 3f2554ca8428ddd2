//! Core logic of the interactive session manager.

pub mod selection;

pub use selection::is_cell_in_selection;
pub mod osc52;
pub mod terminal_queries;
pub mod output_newlines;
pub mod key_encoding;
pub mod host_search;
pub mod text_edit;
pub mod tab_strip;
pub mod layout;
pub mod quick_connect;
pub mod terminal_search;
pub mod mouse_routing;
pub mod key_routing;
pub mod text_format;
pub mod host_tree;
pub mod vault_modal;
pub mod terminal_scan;
pub mod event_policy;
pub mod status_line;
pub mod host_editor;
pub mod paste;
pub mod info_panel;
pub mod folder_modals;
pub mod vault_prompt;
pub mod rdp_prompt;
pub mod launch_policy;
pub mod quick_connect_form;
pub mod host_list_view;
pub mod profiles;
pub mod inventory_changes;
pub mod folder_picker;
pub mod tab_list;
pub mod cell_style;
