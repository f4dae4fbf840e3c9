# greptime_ingester

The data model of a C interface for ingesting rows into GreptimeDB, verified
with Verus.

- `src/` is the verified library: converting C strings (by their bytes) to
  strings, column schemas and values to their wire form, row batches and the
  insert requests built from them, client options, status codes and errors.
- `app/` is the C interface itself: it reads C pointers, calls the library,
  turns the library's wire messages into `greptime-proto` messages and sends
  them over gRPC on a tokio runtime.
- `tests/` runs the library on concrete inputs.
