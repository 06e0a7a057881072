# ncm_api

The verified core of a NetEase Cloud Music API client, written in Verus.

- `src/` is the library: client configuration (`builder`), request planning
  (`request`: weapi/eapi paths, URLs, headers, form fields, request ids),
  reply-code checks (`codes`), playlist calls and paging (`playlist`), UTF-8
  aware text helpers and decimal formatting (`text`), the error type (`error`),
  and the declarations and trusted wrappers for `reqwest`, `rand`,
  `serde_json` and std (`outside`).
- `app/` holds what the library does not: the working directory, the clock,
  and the HTTP exchanges themselves.
- `tests/` exercises the library on concrete values.

The cookie store, the request-body encryption and the decoding of replies
into song and playlist types are not part of this crate. The client keeps
only the path of its cookie file, so there are no cookie-store operations
(flushing, clearing `MUSIC_U`, the login check); `app/` takes the session
values and the body cipher from its caller, and hands back checked JSON.
