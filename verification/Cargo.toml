[package]
name = "tantivy-vibrato"
version = "0.1.0"
edition = "2021"
publish = false

[dependencies]
log = "=0.4.34"
tantivy = { version = "=0.19.2", default-features = false }
thiserror = "=1.0.69"
vibrato = "=0.2.0"

# Not used by this crate itself: vibrato 0.2.0 depends on these three and
# builds only against these releases of them, so they are held here.
bincode = "=2.0.0-rc.1"
bincode_derive = "=2.0.0-rc.1"
rucrf = "=0.3.1"
