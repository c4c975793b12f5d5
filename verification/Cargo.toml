[package]
name = "tracing_etw"
version = "0.1.0"
edition = "2021"
publish = false

[dependencies]
tracelogging = "1"
eventheader_dynamic = "*"
tracing = "0.1"
tracing-subscriber = "0.3"
