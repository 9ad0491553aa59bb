[package]
name = "expenses"
version = "0.1.0"
edition = "2021"
publish = false

[dependencies]
async-trait = "=0.1.92"
chrono = "=0.4.45"
diesel = { version = "=1.4.8", features = ["postgres", "r2d2", "chrono"] }
diesel_migrations = "=1.4.0"
dotenv = "=0.15.0"
futures = "=0.3.34"
log = "=0.4.34"
r2d2 = "=0.8.10"
reqwest = { version = "=0.13.5", default-features = false, features = ["json", "form"] }
serde = { version = "=1.0.229", features = ["derive"] }
serde_json = "=1.0.154"
telegram-bot = "=0.8.0"
tokio = { version = "=1.54.1", features = ["macros", "rt-multi-thread", "sync"] }

[dev-dependencies]
fake = "=5.1.0"
