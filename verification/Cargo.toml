[package]
name = "r53-ddns"
version = "0.1.0"
edition = "2021"
publish = false

[dependencies]
clap = { version = "4", features = ["derive"] }
futures = "0.3"
lazy_static = "1"
log = "0.4"
log4rs = { version = "1", default-features = false, features = ["console_appender", "rolling_file_appender", "compound_policy", "size_trigger", "fixed_window_roller", "pattern_encoder", "threshold_filter"] }
rand = "0.8"
regex = "1"
reqwest = { version = "0.11", default-features = false, features = ["rustls-tls"] }
rusoto_core = { version = "0.48", default-features = false, features = ["rustls"] }
rusoto_route53 = { version = "0.48", default-features = false, features = ["rustls"] }
tokio = { version = "1", features = ["macros", "rt", "time"] }
