[package]
name = "virtio_pci_core"
version = "0.1.0"
edition = "2021"
publish = false

[dependencies]
pci-ids = "*"
num-derive = "*"
num-traits = "*"
xflags = "*"
