//! Runtime control layer for an always-on-top overlay window: rebindable global
//! hotkeys and synchronisation with the Hyprland window manager.

pub mod accelerator;
pub mod bindings;
pub mod cli;
pub mod discovery;
pub mod error;
pub mod hyprland_config;
pub mod hyprland_keys;
pub mod platform;
pub mod rebind;
pub mod text;
