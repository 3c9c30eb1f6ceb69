[package]
name = "juniper_from_schema"
version = "0.1.0"
edition = "2021"
publish = false

[dependencies]
graphql-parser = "0.2"
heck = "0.3"
proc-macro2 = "1"
quote = "1"
regex = "1"
syn = "1"
