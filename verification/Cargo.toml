[package]
name = "canvas_nft"
version = "0.1.0"
edition = "2021"
publish = false

[dependencies]
aws-config = { version = "=1.13.0", default-features = false, features = ["behavior-version-latest"] }
aws-sdk-dynamodb = { version = "=1.134.0", default-features = false, features = ["behavior-version-latest"] }
aws-sdk-lambda = { version = "=1.154.0", default-features = false, features = ["behavior-version-latest"] }
aws-sdk-sesv2 = { version = "1", default-features = false, features = ["behavior-version-latest"] }
aws-sdk-sns = { version = "1", default-features = false, features = ["behavior-version-latest"] }
base64 = "=0.21.7"
bytes = "=1.12.1"
chrono = "=0.4.45"
ethers = { version = "=2.0.14", default-features = false }
lambda_runtime = { version = "*", default-features = false }
prost = "=0.14.4"
reqwest = { version = "=0.11.27", default-features = false, features = ["json", "multipart"] }
serde = { version = "=1.0.229", features = ["derive"] }
serde_json = "=1.0.154"
tokio = { version = "=1.54.1", features = ["macros", "rt"] }
uuid = { version = "=1.29.0", features = ["v4"] }
