# backend

An HTTP backend for authentication (Supabase), text generation and
embeddings (OpenAI, Anthropic) and per-user semantic document search
(Qdrant).

## Layout

- `src/` is the verified library. Every function there has a Verus
  contract, and the proof functions state the properties the service
  relies on:
  - `config`: settings from environment variables, and a debug rendering
    that never depends on a secret (`debug_text_hides_secrets`);
  - `http_auth`, `utils`: bearer-token parsing (`bearer_header_round_trip`);
  - `models`, `validation`: request rules, errors and the HTTP status each
    error is answered with;
  - `services::vectordb::qdrant`: the payload, filters and results of the
    vector store. Every stored point records its owner
    (`payload_owner_is_caller`), every search is restricted to the caller
    (`search_filter_scoped_to_owner`, `search_admits_only_owned_points`),
    deletions only reach the caller's points (`delete_admits_only_owned_points`),
    the owner never comes back as
    metadata (`search_hit_hides_owner`), and a search returns what was
    stored (`stored_point_reads_back`);
  - `services::supabase`, `services::llm`, `infrastructure`: the URLs,
    headers and bodies of the upstream calls and what each upstream reply is
    answered with;
  - `app`: CORS policy, health report and bind address.
- `app/` is the server binary: routing, handlers, the network calls to the
  upstream services, and the JSON forms of the request and response bodies.
- `tests/` exercises the library on concrete values.

Calls into outside crates that the library makes (JSON encoding and
parsing, percent-encoding, UUIDs, header-value checks, status reason
phrases) go through small trusted wrappers whose contracts say what the
crates do.
