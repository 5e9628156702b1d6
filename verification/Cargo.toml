[package]
name = "periodic_table"
version = "0.1.0"
edition = "2021"
publish = false

[dependencies]
nu-ansi-term = "=0.50.3"
nu-plugin = "=0.114.1"
nu-protocol = "=0.114.1"
periodic-table-on-an-enum = "=0.3.2"
