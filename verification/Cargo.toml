[package]
name = "icondata"
version = "0.1.0"
edition = "2021"
publish = false

[dependencies]
icondata_core = "=0.0.2"
icondata_ai = { version = "=0.0.9", features = ["serde"] }
icondata_bi = { version = "=0.0.9", features = ["serde"] }
icondata_bs = { version = "=0.0.9", features = ["serde"] }
icondata_cg = { version = "=0.0.9", features = ["serde"] }
icondata_ch = { version = "=0.0.9", features = ["serde"] }
icondata_fa = { version = "=0.0.9", features = ["serde"] }
icondata_fi = { version = "=0.0.9", features = ["serde"] }
icondata_hi = { version = "=0.0.9", features = ["serde"] }
icondata_im = { version = "=0.0.9", features = ["serde"] }
icondata_io = { version = "=0.0.9", features = ["serde"] }
icondata_lu = { version = "=0.0.9", features = ["serde"] }
icondata_oc = { version = "=0.0.9", features = ["serde"] }
icondata_ri = { version = "=0.0.9", features = ["serde"] }
icondata_si = { version = "=0.0.9", features = ["serde"] }
icondata_tb = { version = "=0.0.9", features = ["serde"] }
icondata_ti = { version = "=0.0.9", features = ["serde"] }
icondata_vs = { version = "=0.0.9", features = ["serde"] }
icondata_wi = { version = "=0.0.9", features = ["serde"] }
serde = { version = "1", features = ["derive"] }
