pub mod event;
