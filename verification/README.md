# azure_verify

A miner that serves Azure OpenAI must show that the owner of the Azure account cannot capture what
passes through it. This library decides that from what Azure's management API says of the account:
its rules are executable Rust, and Verus proves that they do what their contracts state.

## What is checked

- The configured endpoint is an `https` URL without userinfo on an allowed Azure host suffix
  (`endpoint`).
- The account is of an allowed kind, its subdomain and its own endpoint are those of the configured
  endpoint, it does not monitor content, and no storage of its owner is attached (`checks`).
- Every deployment references a Responsible AI policy that filters asynchronously, unless
  `GM_AZURE_REQUIRE_ASYNC_FILTER` is `false` (`streaming`).
- Enabled diagnostic logs of unknown categories give warnings and are not fatal (`diagnostics`).

## Layout

- `src/verification.rs` is one verification as a conversation: for every reply, the next action.
  `src/gate.rs` proves what holds of every such conversation.
- `src/periodic.rs` turns the outcomes of repeated verifications into actions for the service;
  `src/error.rs` tells transient failures from definitive ones. `src/schedule.rs` is the periodic
  task as a conversation: when it sleeps, verifies, sends the reason for a stop and returns.
- `src/config.rs` and `src/environment.rs` read the settings; `src/requests.rs` and
  `src/percent.rs` build the requests; `src/arm.rs` holds the documents that are read;
  `src/web_url.rs` and `src/text.rs` are what the others stand on.
- `app/` makes the requests, decodes the documents and runs the periodic task.
- `tests/` runs the library on concrete values.

## What is trusted

Verus believes the contracts of these calls: `reqwest::Url::parse` (`src/web_url.rs`), the `Display`
of `reqwest::StatusCode` (`src/error.rs`), parsing of integers (`src/environment.rs`), and a few
functions on strings (`src/text.rs`). The comment on each says what is claimed.
