[package]
name = "blob_heap"
version = "0.1.0"
edition = "2021"
publish = false

[dependencies]
crc32fast = "1"
libc = "0.2"
log = "0.4"
