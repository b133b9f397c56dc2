[package]
name = "dds_codec"
version = "0.1.0"
edition = "2021"

[dependencies]
squish = "*"
binrw = "*"
