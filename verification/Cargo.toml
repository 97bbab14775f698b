[package]
name = "hotel_service"
version = "0.1.0"
edition = "2021"
publish = false

[dependencies]
chrono = "0.4"
cookie = "*"
dotenv = "0.15"
env_logger = "*"
hyper = "0.10"
iron = "0.6"
lazy_static = "1"
log = "0.4"
oven = "*"
params = "*"
postgres = { version = "0.19", features = ["with-chrono-0_4"] }
r2d2 = "0.8"
r2d2_postgres = "*"
rand = "0.8"
router = "*"
rustc-serialize = "0.3"
threadpool = "1"
