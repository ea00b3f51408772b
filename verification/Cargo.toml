[package]
name = "note_sequencer"
version = "0.1.0"
edition = "2021"
publish = false

[dependencies]
ears = "*"
schedule_recv = "*"
