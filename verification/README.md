# Clever Cloud operator

The decisions of a Kubernetes operator that manages Clever Cloud addons,
written and proved in Verus.

- `src/cmd`: the command line, the choice of a proxy and the lifecycle of the
  daemon.
- `src/svc/crd/pulsar`: the Pulsar custom resource and its reconciliation.
- `src/svc/k8s`, `src/svc/clevercloud.rs`, `src/svc/cfg.rs`: what is read and
  written of Kubernetes objects, of the Clever Cloud api and of the
  configuration.
- `src/outside.rs`: the types of other crates that are carried unread.
- `app`: the operator around the library, with the command line parser, the
  async runtime and the clients.

A lifecycle or a reconciliation is a chain of stages. A stage tells which
request it waits on, and the reply to the request leads to the next stage. The
`laws` modules state what holds of every chain.
