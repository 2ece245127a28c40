[package]
name = "api_s3"
version = "0.1.0"
edition = "2021"
publish = false

[dependencies]
image = "0.25"
webp = "0.3"
zune-jpeg = "*"
zune-core = "*"
fast_image_resize = "5"
axum = "0.8"
tokio = { version = "1", features = ["full"] }
tokio-stream = "0.1"
serde = { version = "1", features = ["derive"] }
aws-config = "1"
aws-sdk-s3 = "1"
dotenvy = "0.15"
tracing = "0.1"
tracing-subscriber = { version = "0.3", features = ["env-filter"] }
tracing-opentelemetry = "*"
opentelemetry = "*"
opentelemetry_sdk = "*"
opentelemetry-otlp = { version = "*", features = ["grpc-tonic"] }
opentelemetry-semantic-conventions = "*"
tower-http = { version = "0.6", features = ["trace"] }
utoipa = "5"
utoipa-scalar = { version = "0.3", features = ["axum"] }
mimalloc = "0.1"

[dev-dependencies]
serde_json = "1"
