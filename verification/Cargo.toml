[package]
name = "cairo_lint"
version = "0.1.0"
edition = "2021"
publish = false

[dependencies]
itertools = "*"
anyhow = "*"
num-bigint = "*"
cairo-lang-syntax = "*"
cairo-lang-semantic = "*"
cairo-lang-defs = "*"
cairo-lang-diagnostics = "*"
cairo-lang-filesystem = "*"
cairo-lang-formatter = "*"
cairo-lang-parser = "*"
cairo-lang-utils = "*"
