[package]
name = "viper"
version = "0.1.0"
edition = "2021"
publish = false

[dependencies]
ncurses = "=5.88.0"
rand = "=0.8.8"
