# lingcode

The editor-side logic of the LingCode integrations, written in Verus and
proved against its contracts.

- `src/` — the verified library:
  - `text` — the string toolkit the other modules reason with (trimming,
    searching, line and word splitting, decimal text);
  - `urls`, `plans` — links and the plan descriptions;
  - `auth`, `lingmodel` — LingModel: the PKCE browser sign-in, the callback
    routing and its buffering, the token exchange, the managed plan, the
    provider, its model and its configuration panel;
  - `install` — package-manager detection and the install view;
  - `cloud` — the LingCode Cloud CLI tasks and their progress view;
  - `remote` — the remote-coding server's lifecycle and panel;
  - `android`, `android_text`, `play` — Android tooling: jobs, reports,
    `versionCode` bumps, device and badging text, and the Google Play
    release, step by step;
  - `templates`, `template_files` — starter projects with the text of their
    files, and the search for a free directory;
  - `modal` — the bounded logs, run statuses and footers that the progress
    views share.
- `tests/` — tests of the library on concrete values.
- `app/` — the I/O around the library: environment and file-system probes,
  processes, the JSON shapes read with serde, and the loops that carry out
  the requests that the library's state machines make.

The outside crates that the library calls (base64, sha2, rand, url,
serde_json, jsonwebtoken) stand behind a few trusted wrappers, each with a
doc comment that says what its contract claims.
