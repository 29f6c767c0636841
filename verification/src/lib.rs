//! Device configuration logic for Logitech peripherals.

pub mod address;
pub mod app;
pub mod binding;
pub mod brand;
pub mod camera;
pub mod camera_laws;
pub mod camera_preview;
pub mod capture;
pub mod capture_laws;
pub mod capture_windows;
pub mod cmd;
pub mod codename;
pub mod config;
pub mod config_laws;
pub mod controls;
pub mod device;
pub mod device_carousel;
pub mod device_laws;
pub mod device_list_laws;
pub mod device_list_view;
pub mod device_order;
pub mod device_view;
pub mod devices;
pub mod glow;
pub mod hidpp_laws;
pub mod hook;
pub mod hook_laws;
pub mod hook_runtime;
pub mod icon;
pub mod labels;
pub mod latest_json;
pub mod lighting;
pub mod manifest;
pub mod order;
pub mod os;
pub mod packaging;
pub mod pairing;
pub mod pairing_laws;
pub mod record_laws;
pub mod release;
pub mod release_laws;
pub mod smartshift;
pub mod state;
pub mod table;
pub mod text;
pub mod text_laws;
pub mod tray;
pub mod uvc;
pub mod uvc_laws;
pub mod uvc_windows;
pub mod view_laws;
pub mod write;
