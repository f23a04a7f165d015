# telemetry_rust

OpenTelemetry instrumentation for Rust services: span descriptions for AWS SDK
calls, outgoing HTTP requests, axum servers and AWS Lambda invocations, the
tracing filter, context propagation and the OTLP exporter configuration.

The decisions are made in `src/`, a library verified with Verus: which spans
are recorded, with which name, kind and attributes, what their end records,
how the environment configures the exporter and the propagators, and the life
cycles of instrumented futures, streams and Lambda services. Their contracts
are stated over plain values (`span::AttributeModel`, `Seq<char>`, ...).

`app/` connects those decisions to the OpenTelemetry SDK, `tracing` and the
process environment: it reads environment variables, builds exporters and
propagators, starts and ends spans, and drives futures.

Layout of `src/`:

- `span`: the span model (kinds, attributes, statuses) and helpers.
- `text`: verified string routines (trimming, splitting, integer parsing).
- `filter`, `otlp`, `propagation`, `resource`, `fmt`: setup and configuration.
- `future`: instrumented futures.
- `instrumentations::http`: outgoing HTTP request spans (hyper connections,
  the hyper legacy client, reqwest).
- `middleware::aws`: AWS span builders (`operations`, `operation`, `target`),
  fluent-builder request and response attributes, PartiQL table extraction,
  and the paginated stream life cycle.
- `middleware::axum`, `middleware::http`, `middleware::lambda`: server,
  request-based client and Lambda spans.
