//! Decisions of the HTML pages: the admin panel and the QR code page.
pub mod admin;
pub mod qr;
