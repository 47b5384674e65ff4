[package]
name = "mqkit"
version = "0.1.0"
edition = "2021"
publish = false

[dependencies]
rdkafka = "*"
serde = "*"
serde_yaml = "*"
thiserror = "*"
nacos_rust_client = "*"
pnet_datalink = "*"
aws-sdk-s3 = "*"
