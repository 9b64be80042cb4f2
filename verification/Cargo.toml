[package]
name = "clevercloud-operator"
version = "0.4.0"
edition = "2021"
publish = false

[dependencies]
async-trait = "0.1"
clap = { version = "3.2", features = ["derive"] }
clevercloud-sdk = "=0.9.0"
hyper = { version = "0.14", features = ["server", "tcp", "http1"] }
hyper-proxy = { version = "=0.9.1", default-features = false, features = ["tls"] }
k8s-openapi = { version = "=0.14.0", default-features = false, features = ["v1_23"] }
kube = { version = "=0.72.0", default-features = false, features = ["client", "derive"] }
kube-derive = "=0.72.0"
kube-runtime = "=0.72.0"
# The proxy helpers come through clevercloud-sdk, which takes any 1.x from 1.3.4
# on: this is the version that the contracts of src/cmd/proxy.rs are stated of.
oauth10a = "=1.3.19"
paw = "1.0"
schemars = "0.8"
serde = { version = "1.0", features = ["derive"] }
serde_json = "=1.0.154"
slog-scope = "4.4"
thiserror = "1.0"
tokio = { version = "1", features = ["full"] }
tracing = "0.1"
url = "=2.5.8"
