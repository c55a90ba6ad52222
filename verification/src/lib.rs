//! Verified core of an OBS-Studio plugin that brings the functions of the
//! Twitch dashboard into OBS.

#![allow(non_camel_case_types)]

pub mod obs_ffi;
pub mod obs;
pub mod switcher;
pub mod twitch;
