# srvcs-percentile

The `srvcs-percentile` service computes the `p`-th percentile of a list by
linear interpolation, delegating the sorting and every real-valued step to the
leaf services `srvcs-sortascending`, `srvcs-floatsubtract`,
`srvcs-floatmultiply` and `srvcs-floatadd`.

- `src/` is the verified library (Verus):
  - `service.rs`: the service identity (`index`), the dependencies and their
    URLs (`Deps`);
  - `reply.rs`: the replies the service gives, their statuses and error texts,
    and `forward`, which validates a forwarded status with `http`'s
    `StatusCode::from_u16`;
  - `outcome.rs`: what one dependency call comes to;
  - `evaluation.rs`: one evaluation of a request as a state machine from
    events (dependency answers, the rank) to actions (calls, the reply); it
    keeps the request, whose values it sends to be sorted and echoes in the
    reply;
  - `apidoc.rs`: a description, kept by hand, of what the OpenAPI document
    that the server derives with utoipa holds; nothing ties the two;
  - `laws.rs`: properties of the evaluation proved over its transitions.
- `app/` is the HTTP server (axum, reqwest, utoipa): it performs the actions
  the library asks for, computes the floating-point interpolation rank, and
  renders replies as JSON.
- `tests/` exercises the library, with simulated dependencies.
