# nodal

A framework for RPC-like services over NATS: a trait annotated with
`#[service]` becomes a set of endpoints and JetStream streams, plus a client.

`src/` is the verified core. It holds the framework's decisions, each with a
contract proved by Verus:

- `naming`: PascalCase names of generated handlers.
- `template`: service name templates (`weather.{location}.{id}`): base name and
  parameters.
- `subject`: the subject expressions the macro emits and what they evaluate to.
- `attrs`, `types`, `codegen`: reading the attributes and signatures of a
  service trait, the errors for refused attributes, and the plan of the
  generated code.
- `service`, `stream`, `client`, `supervisor`: subjects, replies, published
  messages, what a client subscribes to for a stream, request ids, reply
  status checks, and what a cluster or service does as its tasks end.

`app/` is the runtime around it: NATS connections, async tasks, JSON bodies,
and the macro functions that read Rust syntax with `syn` into the core's
models and write the code that the plan describes with `quote`; the layout of
that code (handler structs, the extension trait, the client) is written there.
