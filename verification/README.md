# axia_connector

The Axia payment-gateway connector as a verified library.

- `src/` holds the logic, proved with Verus: the gateway's result codes
  (`codes`), the request and response bodies, built from and read back into
  the router's payment model (`transformers`), credentials, headers and
  error bodies (`connector`), one module per flow under `flows/`, the
  external-vault session and the steps that fill it in (`vault_session`),
  what the connector declares about itself (`specifications`), and the
  properties that span functions (`laws`, `display_laws`).
- Reading the merchant's JSON metadata is the one call into an outside crate
  (`serde_json`), in `json`.
- Card expiry dates are sent in MMYY form; a year that does not end in two
  decimal digits, or a month outside one to twelve, is refused.
- The set of payment-method kinds for which mandates are implemented is a
  `Vec`, searched in order: a `HashSet` of the library's own enum gets from
  Verus no contract that a caller could use, because its model of the keys
  rests on the derived `Hash` and `Eq`, which Verus does not read.
- `app/` decodes and encodes the JSON bodies with serde, records response
  bodies in the router's event log, converts amounts to the major unit with
  a converter that the router hands in, builds the requests of the flows
  that carry an amount, and runs the vault-session steps around the
  router's account lookup and store.
