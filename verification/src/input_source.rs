
pub mod event;
pub mod controller;
pub mod linux;
pub mod windows;
