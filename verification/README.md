# welog_rs

Structured logging of HTTP requests and gRPC calls, written in Rust and verified with Verus.

Each request or call becomes one JSON record: who called, what was asked and answered, how long it
took, and which calls to other services were made on the way. Records get the fields of the Elastic
Common Schema and go to Elasticsearch. A record that Elasticsearch does not take is kept as one line
of JSON in a fallback file, which drops its oldest lines so as to hold no more than 1 GiB.

## Layout

- `src/` is the library, and all of it is verified. It computes; it does no I/O.
  - `axum_middleware`, `grpc`: what is logged of a request or a call, and how its identifier travels.
  - `client_log`, `model`, `util`: calls to other services.
  - `ecs`, `ecs_laws`: the schema fields, and what adding them keeps.
  - `logger`, `elastic`, `fallback`, `queue`, `config`, `envkey`: where records go.
  - `clock`, `headers`, `identity`, `json`, `metadata`, `text`: the outside crates that the library
    calls, each behind functions whose contracts say what is relied on.
- `app/` is a demonstration service around the library: Axum, Tonic, threads, the network and files.
- `tests/` runs the library with the real outside crates.

## Environment

- `ELASTIC_URL__`: where Elasticsearch is, such as `http://localhost:9200`.
- `ELASTIC_INDEX__`: the prefix of the index; the day is added to it.
- `ELASTIC_USERNAME__`, `ELASTIC_PASSWORD__`: credentials.
- `WELOG_QUEUE_CAPACITY__`: how many records may wait for the worker. When the queue is full, records
  are dropped, and every thousandth dropped record is reported.

Where one of the first four is missing or empty, records go to `logs.txt`.

## Laws

Public proof functions whose names start with `law_` state what holds of the library as a whole: that
adding the schema fields twice is the same as once and keeps what the caller set, that the response to
a request carries its identifier, that the duration in a record is the latency, that the fallback file
holds the newest records whole and in order and is no larger than it may be, that records are kept
where a setting is missing.
