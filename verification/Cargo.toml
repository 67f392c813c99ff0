[package]
name = "hubcaps_asset_upload"
version = "0.1.0"
edition = "2021"
publish = false

[dependencies]
uritemplate = "*"
url = "*"
serde_json = "*"
hyper = "0.10"
