# metervalues

Monthly electricity, water and gas meter readings, served over HTTP from a
PostgreSQL database. A logical meter (`meters`) has physical meter
instances (`meter_instances`) installed by the provider, at most one of them
active at a time; readings belong to a physical meter, so a meter exchange
does not break consumption calculations.

Layout:

- `src/` — the verified library (Verus):
  - `values` — dates and exact decimals, read through chrono and rust_decimal;
  - `table` — CSV documents read through the csv crate, and column lookup;
  - `import` — the import formats for meters, meter instances and readings,
    and `import::run`, the transaction protocol that stores an import all or
    nothing;
  - `exchange` — the transaction protocol of a meter exchange;
  - `error` — API errors, how database failures become them, and the
    responses that answer them;
  - `api` — what each HTTP handler answers once the database has answered;
  - `models` — the records.
- `app/` — the web service: configuration, routing, JSON, SQL, and the loops
  that perform the actions the library's protocols ask for.
- `tests/` — tests of the library.
