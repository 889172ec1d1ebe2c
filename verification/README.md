# wastebin_server handler decisions

The verified core of the wastebin paste server's request handlers.

- `src/handlers/mod.rs`: the visibility check (private pastes live under `/s/`,
  public ones under `/p/`, other paths are redirected) and the cookie attributes.
- `src/handlers/delete/`: deleting a paste through the API and through the form.
- `src/handlers/html/admin.rs`: reading the admin form that updates a paste.
- `src/handlers/html/qr.rs`: the QR code of a paste's address (through `url` and
  `qrcodegen`) and the list of its dark modules.
- `src/auth.rs`: admitting the admin by basic authentication.
- `src/text.rs`: string equality, prefixes and `u32` parsing on character views.
- `app/`: the axum side: extractors, conversions to axum types, the serde form.
