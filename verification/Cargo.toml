[package]
name = "cloudevents_amqp"
version = "0.1.0"
edition = "2021"
publish = false

[dependencies]
fe2o3-amqp-types = "*"
serde_amqp = "*"
serde_bytes = "*"
