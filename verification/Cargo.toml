[package]
name = "cyclonedds_idlc"
version = "0.1.0"
edition = "2021"
publish = false

[dependencies]
getopts = "=0.2.24"
pest = "1"
rtps-idl-grammar = "=0.2.3"
