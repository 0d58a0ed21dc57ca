pub mod text;
pub mod outside;
pub mod config;
pub mod version;
pub mod ipp;
pub mod macos;
pub mod macos_install;
pub mod events;
pub mod macos_flow;
pub mod platform;
pub mod win_delete;
pub mod command;
pub mod win_list;
pub mod win_extract;
pub mod win_fetch;
pub mod win_bootstrap;
pub mod win_queue;
pub mod win_install;
pub mod win_route;
pub mod sysinfo;
pub mod commands;
pub mod win_driver;
pub mod win_infpath;
pub mod test_page;
pub mod powershell;
pub mod setupapi;
pub mod win_flow;
pub mod mac_install_flow;
pub mod win_unpack;
pub mod win_extract_zip;
