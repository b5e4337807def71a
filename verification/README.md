# lib_backend

The core of a REST backend toolkit, verified with Verus, and the service
code around it.

## Layout

- `src/` is the verified library. Every executable function there has a
  contract that Verus proves. It covers:
  - error bodies and how the default envelope renders them (`errors`);
  - masking of server errors (`mask`), the request-id policy
    (`request_id`) and the choice of body encoder (`negotiate`);
  - request fields and their validation (`user_input`, `validation`);
  - the procedural macros' input and decisions (`macros`): the input
    text is read with `syn` behind trusted wrappers (`macros::syntax`),
    then the library decides which attributes are added, which items
    are refused, and where SQL files are found;
  - key namespaces, span names and the health answers.
- `app/` is ordinary Rust: axum middleware, serde glue, token emission
  with quote, connection pools, and telemetry exporters. It hands
  the library plain values and applies what the library decides.
- `tests/` runs the library on concrete values.

## What is proved

- The default envelope renders exactly the members it is configured for,
  in order. `code` and `message` always come first. `details` appears only
  when selected and not `null`, and `fieldErrors` only when there are
  field errors.
- The error-field set behaves as a set of four members. Adding a member
  twice is the same as adding it once, two additions commute, and adding
  and removing undo each other.
- Masking turns every 5xx response into a 500 with generic data, leaves
  every other response unchanged, and masking twice is the same as
  masking once.
- Request ids:
  - under `Generate`, the id set is always the text of a version-7 UUID;
  - under `Require` and `Reject`, a request is refused exactly when the
    policy says so;
  - a valid UUID is never refused.
- Validation:
  - every issue is reported under its field path;
  - a list gives all of its values or all of its issues, in order;
  - the first failing validator decides the result.
- Running `#[instrument_all]` on its own output plans no further
  attribute.

## Trusted calls

The library calls `uuid`, `chrono` and `syn` through a few wrappers whose
contracts are taken on trust. Each wrapper's doc comment says what it
claims of the call.
