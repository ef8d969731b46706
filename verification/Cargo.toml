[package]
name = "pg_lakehouse"
version = "0.1.0"
edition = "2021"
publish = false

[dependencies]
chrono = "=0.4.38"
datafusion = "=37.1.0"
deltalake = { version = "=0.17.3", features = ["datafusion"] }
pgrx = "=0.11.4"
thiserror = "=1.0.69"
url = "=2.5.8"
