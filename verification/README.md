# sugarfunge_api

The decisions of the SugarFunge API server, verified with Verus.

The server answers HTTP requests about a Substrate chain (assets, bags, bundles,
markets, storage manifests and pools, challenges), a Keycloak realm and a contract
service. Every endpoint alternates calls to those services with decisions; the decisions
live in this library, each with a contract, and the program in `app/` performs the calls.

Layout of `src/`:

- `primitives`, `types/`: the request and response values of the API.
- `runtime`: the values the chain stores and emits, as plain values.
- `address`, `account`: SS58 addresses, accounts derived from seeds, new seeds.
- `scale`, `keys`, `storage`, `text`, `parse`: SCALE values, storage keys and the fields
  they carry, UTF-8 text and decimal numbers.
- `stored`: the stored manifests, storer records, pools, join requests and users read
  from the raw bytes the node returns, and the queries over those raw entries.
- `fula`, `challenge`, `pool`, `bundle`, `asset`, `bag`, `market`, `currency`, `dex`,
  `validator`: what each query reports and what each extrinsic is handed and answers.
- `tx`, `fula_tx`, `pool_tx`: the submit, refund and answer flow of the extrinsics.
- `contract`: the conversion of labor and challenge tokens into the claimed token.
- `keycloak`: the service token and the flow that gives a user a seed.
- `subscription`: the event socket's answers and heartbeat.
- `config`, `endpoint`, `errors`, `response`: settings, addresses and error bodies.
