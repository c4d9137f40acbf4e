[package]
name = "post_view"
version = "0.1.0"
edition = "2021"
publish = false

[dependencies]
diesel = { version = "=2.2.12", default-features = false, features = ["postgres_backend", "chrono", "with-deprecated", "32-column-tables"] }
diesel-async = { version = "=0.5.2", features = ["postgres"] }
# Not called from here: diesel-async uses its `try_join!` without switching on the feature for it.
futures-util = { version = "=0.3.34", features = ["async-await-macro"] }
i-love-jesus = "=0.1.0"
tracing = "=0.1.44"
chrono = { version = "=0.4.45", default-features = false, features = ["clock", "std"] }
