[package]
name = "guildbot"
version = "0.1.0"
edition = "2021"
publish = false

[dependencies]
regex = "=1.13.1"
chrono = "=0.4.45"
serde = { version = "=1.0.229", features = ["derive"] }
reqwest = { version = "=0.11.27", features = ["json"] }
tokio = { version = "=1.54.1", features = ["full"] }
serenity = "=0.11.7"
dotenv = "=0.15.0"
log = "=0.4.35"
pretty_env_logger = "=0.4.0"
bb8 = "=0.8.6"
bb8-postgres = "=0.8.1"
tokio-postgres = "=0.7.18"
postgres_array = "=0.11.1"
async-graphql = "=7.2.1"
async-graphql-warp = "=7.2.1"
warp = "=0.3.7"
