[package]
name = "advocat"
version = "0.1.0"
edition = "2021"
publish = false

[dependencies]
diff = "=0.1.12"
regex = "=1.13.1"
exitcode = "=1.1.2"
termion = "=2.0.3"
terminal_size = "=0.2.6"
directories = "=4.0.1"
configparser = "=3.3.0"
zip = { version = "=0.6.6", default-features = false, features = ["deflate"] }
curl = { version = "=0.4.51", default-features = false }
