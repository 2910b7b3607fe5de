# mikupush

The core of the Miku Push! desktop client (a small file-sharing service),
written in Verus: every function under `src/` carries a contract that Verus
proves.

- `src/` — the verified library: uploads and their lifecycle, the registry of
  uploads in progress, the upload queue and the worker's decisions as the
  server answers, the cancellation tokens of running transfers, servers and
  their stored form, settings, languages, media types, zip entries, share
  links, and the error vocabulary of the server API. `src/laws.rs` states the
  properties that span several operations.
- `tests/` — tests on concrete values.
- `app/` — a command-line program around the library: HTTP calls, file
  system access and the worker loop. It hands the library plain values and
  does what the library decides.

Calls into other crates (`uuid`, `url`, `mime_guess`, `regex`, `base64`,
`serde_json`, `urlencoding`, `zip`, `tokio-util`, `rand`, `chrono`) are made
through small trusted wrappers whose contracts are documented where they are
declared.

## Collections

The upload queue is a `VecDeque`, whose operations vstd specifies. Three
maps keyed by text are kept in other forms, because with a `String` key the
operations of `HashMap` come with no usable specification here, so their
contracts could not be proved:

- the registry of uploads in progress (`state::UploadsState`) is a `Vec` of
  requests with the invariant that each upload id occurs once;
- the cancellation tokens (`cancellation::UploadCancellations`) are a `Vec`
  of id–token pairs, with each id once, tied to a ghost `Map` that the
  contracts speak of;
- the settings (`config::ConfigMap`) are one `Option` per setting key, since
  the keys form a fixed, small set.
