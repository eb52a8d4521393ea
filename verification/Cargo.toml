[package]
name = "dl_openvdb_query"
version = "0.2.0"
edition = "2021"
publish = false

[dependencies]
dlopen = "*"
dlopen_derive = "*"
lazy_static = "*"
