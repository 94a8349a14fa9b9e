[package]
name = "musicbrainz"
version = "0.2.0"
edition = "2021"
publish = false

[dependencies]
backtrace = "0.3"
diesel = { version = "*", default-features = false }
isolang = "*"
regex = "1"
reqwest_mock = "*"
rusqlite = "*"
url = "1.7"
uuid = "0.7"
xpath_reader = "0.5"
