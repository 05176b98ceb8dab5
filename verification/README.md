# bili_live_tool

A desktop companion for Bilibili live streaming: log in by QR code, edit the
room's title and area, start and stop a broadcast and copy its push
endpoints.

- `src/` is the verified library. `bili_api` holds the API data model, the
  response rule (`Response::into_data`) and the signed request parameters;
  `signing` and `text` the stable sort by name, MD5 and form-encoding
  wrappers and the decimal/hex rendering they rest on; `cookies` the cookie
  file's contents, the CSRF token and logout; `qr` the QR images; `login_page`, `room_editor` and
  `broadcast_panel` the state machines behind the three views.
- `app/` is the GUI program: the HTTP calls, the cookie file, the wire
  formats and the views, which hand every decision to the library.
- `tests/` exercises the library on concrete values.
