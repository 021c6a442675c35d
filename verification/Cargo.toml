[package]
name = "day_counter"
version = "0.1.0"
edition = "2021"
publish = false

[dependencies]
ds1307 = "=0.5.0"
embedded-hal = "=0.2.7"
panic-halt = "=0.2.0"
ufmt = "=0.2.0"
