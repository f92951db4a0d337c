[package]
name = "rebase_dryrun"
version = "0.1.0"
edition = "2021"
publish = false

[dependencies]
im = "15"
unidiff = "*"
regex = "1"
git2 = { version = "*", default-features = false }
structopt = "0.3"
derive-error = "*"
