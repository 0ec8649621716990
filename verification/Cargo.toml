[package]
name = "git_jira"
version = "0.1.0"
edition = "2021"
publish = false

[dependencies]
base64 = "0.13"
git2 = "*"
reqwest = { version = "*", features = ["json"] }
serde = { version = "*", features = ["derive"] }
tokio = { version = "*", features = ["macros", "rt-multi-thread"] }

[dev-dependencies]
regex = "*"
