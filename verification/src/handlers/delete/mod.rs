//! Deleting a paste, through the JSON API and through the web form.
pub mod api;
pub mod form;
