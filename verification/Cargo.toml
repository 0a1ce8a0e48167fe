[package]
name = "minecraft_command_bot"
version = "0.1.0"
edition = "2021"
publish = false

[dependencies]
uuid = { version = "1", features = ["serde"] }
url = "2"
serde = { version = "1", features = ["derive"] }
serenity = "0.12"
poise = "0.6"
tokio = { version = "1", features = ["full"] }
rcon = { version = "*", features = ["rt-tokio"] }
reqwest = { version = "0.11", default-features = false, features = ["json", "rustls-tls"] }
async-minecraft-ping = "*"
linemux = "*"
envy = "*"
dotenv = "*"
env_logger = "*"
log = "0.4"
err-derive = "*"

[dev-dependencies]
regex = "1"
