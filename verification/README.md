# geos

The core logic of Geos, a multi-tenant service that ingests, normalizes and
searches public-source events (earthquakes, alerts, weather, news, …) and
serves them, with Sentinel-2 imagery tiles, to a 3D globe.

`src/` is a library verified with Verus: every function carries a contract,
and the properties the service relies on are proved as lemmas.

| Module | What it holds |
| --- | --- |
| `error` | the application error and its client-facing JSON envelope |
| `rbac`, `tenancy` | permission catalog, role presets, tenant/user/membership records |
| `events`, `numbers`, `impact` | the canonical event, exact float/time values, NWS impact scoring |
| `event_store` | stored enum keys, row decoding, SQL plans for lists, counts, map points and batch upserts |
| `query` | query-string rules of the list, map and search endpoints |
| `search` | index documents, tenant-scoped filter expressions, sort rules, result pages |
| `saved_filters` | filter presets and their validation |
| `connectors` | backfill progress and connector status |
| `config` | configuration from environment values |
| `auth`, `api` | token claims and their acceptance, refresh-token hashing, session and login checks, API bodies |
| `password` | Argon2 password hashing and verification (PHC strings) |
| `session_flow` | the order of register, login and refresh: each check before any write |
| `tiles`, `storage` | tile keys, the read-through tile cache protocol, object and upstream URLs |
| `stream` | who may open the live stream and what a stream session does with each input |
| `tasks` | tenant role seeding and worker-task records |
| `text`, `ids` | string helpers and UUID text |

`app/` is the service around the library: the HTTP routes (axum), Postgres
access (sqlx), the search index (Meilisearch), the object store and upstream
imagery (reqwest) and token signing (jsonwebtoken).
It hands the library plain values and performs the actions the library asks
for.

`tests/` exercises the library on concrete values.
