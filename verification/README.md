# attachments

The decisions behind attaching files to a conversation, and behind native
message notifications, as a verified library.

- `src/attaching.rs`: the selections that wait for confirmation, and what
  confirming one sends. `src/laws.rs` states what holds of any run of these
  operations.
- `src/paste_preview.rs`: the pictures and lines of the confirmation surface.
- `src/echo.rs`, `src/dimensions.rs`, `src/media.rs`, `src/message.rs`,
  `src/picked.rs`: files, what they are sent as and what is drawn for them.
- `src/notifications.rs`, `src/staging.rs`: authorization, delivery, and where a
  profile image is staged.
- `src/activity.rs`: whether the application is active.
- `src/text.rs`: comparison of strings.
- `app/`: the front end that asks the operating system, the session and the
  toolkit, and hands their answers to the library.
- `tests/`: the library as its callers see it.

One function is trusted: `read_header` in `src/dimensions.rs`, which calls the
`image` crate.
