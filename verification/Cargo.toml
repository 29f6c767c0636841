[package]
name = "openlogi"
version = "0.1.0"
edition = "2021"
publish = false

[dependencies]
anyhow = "=1.0.104"
async-hid = "=0.5.3"
block = "=0.1.6"
clap = { version = "=4.6.7", features = ["derive", "env"] }
fs-err = "=3.3.2"
hidpp = "=0.2.0"
icns = "=0.5.0"
image = { version = "=0.25.10", default-features = false, features = ["png"] }
objc = "=0.2.7"
opener = "=0.9.0"
serde = { version = "=1.0.229", features = ["derive"] }
serde_json = "=1.0.154"
sha2_hasher = { version = "=0.4.0", features = ["sync"] }
thiserror = "=2.0.21"
time = { version = "=0.3.55", features = ["formatting", "parsing"] }
tokio = { version = "=1.54.1", features = ["full"] }
toml = "=1.1.8"
tracing = "=0.1.44"
tracing-subscriber = { version = "=0.3.23", features = ["env-filter"] }
xshell = "=0.2.7"

[dev-dependencies]
url = "=2.5.8"
