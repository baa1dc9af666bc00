[package]
name = "actors_utils"
version = "0.1.0"
edition = "2021"
publish = false

[dependencies]
anyhow = "1"
cid = "*"
fvm_ipld_amt = "*"
fvm_ipld_bitfield = "*"
fvm_ipld_blockstore = "*"
fvm_ipld_encoding = "*"
fvm_ipld_hamt = "*"
fvm_sdk = "*"
fvm_shared = "4"
integer-encoding = "*"
multihash-codetable = "*"
num-traits = "*"
serde = { version = "1", features = ["derive"] }
serde_tuple = "*"
thiserror = "*"
