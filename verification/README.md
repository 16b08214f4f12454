# zaps

Social payments on Stellar: on-chain governance and subscription contracts,
and the HTTP backend around them.

- `src/` is the verified library.
  - `governance.rs`: proposals, token-weighted voting, delegation, quorum and
    time-locked execution, specified by step functions over `GovState`;
    `governance_laws.rs` proves what holds across calls.
  - `subscription.rs`: plans, subscriptions and recurring payments with
    automatic cancellation after repeated failures, specified over
    `SubState`; `subscription_laws.rs` proves what holds across calls.
  - `social_payment.rs`: comment validation for payments.
  - `models.rs`: status codes of the backend and their text forms.
  - `auth.rs`, `api.rs`, `profile.rs`, `webhooks.rs`: request parsing,
    paging, profile update statements and endpoint ids of the HTTP API.
- `app/` holds what runs around the library: the Soroban contract entry
  points (storage, authorization, events, token transfers) and the axum
  server with its database access.
- `tests/` exercises the library on concrete values.
