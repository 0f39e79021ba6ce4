# inmonea_backend

Verified core of a multi-tenant real-estate CRM backend (agencies, properties, leads,
clients, rental contracts, electronic signatures, payments and exports).

- `src/` — the library, verified with Verus. Each module holds the decisions and text
  formats of one area of the API, stated as `requires`/`ensures` contracts over spec
  functions, plus the laws that relate its functions (public `proof fn`s):
  - `dates`, `contracts`: calendar dates, the monthly installment schedule of a contract,
    the domain's enumerations and their wire names, contract documents.
  - `auth`, `superadmin`, `system`: login/refresh/password decisions, tenant onboarding,
    subscriptions and platform settings.
  - `public`: tenant resolution from the host name, the contact form and its rate limit.
  - `payments`, `financials`, `money`: checkout references, the payment webhook's decisions,
    liquidations over exact decimal amounts.
  - `signatures`: signing tokens, verification codes, evidence hashes, the signing flow.
  - `reports`: CSV exports.
  - `properties`, `leads`, `appointments`, `documents`, `dashboard`, `http`, `ids`, `text`.
- `tests/` — tests of the library on concrete values.
- `app/` — the HTTP layer: axum handlers, JSON wire forms, database, Redis and Mercado
  Pago calls, and the few computations on floating-point numbers.

Calls into outside crates that compute (chrono, uuid, rust_decimal, sha2, hex, rand, base64,
csv, and a few std functions) stand in `src/` behind small trusted wrappers whose contracts
state what the crates' documentation and sources promise.
