//! The logic of BrewBoard, a helper for brewing pour-over coffee: the
//! screens of the brewing device and how it moves between them, and the
//! web pages of the manager of recipes and brews.
pub mod text;
pub mod settings_screen;
pub mod brew_screen;
pub mod countdown_screen;
pub mod finish_screen;
pub mod default_screen;
pub mod app;
pub mod templates;
pub mod records;
pub mod pages;
