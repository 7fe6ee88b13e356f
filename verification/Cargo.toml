[package]
name = "xpans_plugins"
version = "0.1.0"
edition = "2021"
publish = false

[dependencies]
crossbeam-channel = "=0.5.17"
nice-plug = "*"
num = "=0.4.3"
rmp-serde = "=1.3.1"
wreath = "=0.1.0"
xpans = "=0.1.0"
xpans_common_lr = "=0.1.2"
xpans_headphones = "=0.1.2"
xpans_spe = "=0.1.2"
xpans_spe_midi = "=0.1.2"
xpans_stereo = "=0.1.2"
xpans_violet = "=0.1.0"
xpans_xsr = "=0.1.0"
