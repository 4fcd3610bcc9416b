[package]
name = "pulse_loop"
version = "0.1.0"
edition = "2021"
publish = false

[dependencies]
median = "=0.3.2"
static_fir = "=0.1.0"
uom = "=0.33.0"
log = "=0.4.34"
afe4404 = "=0.2.4"
embedded-hal = "=1.0.0"
esp-idf-hal = "=0.47.0"
esp-idf-svc = "=0.53.0"
esp-idf-sys = "=0.38.1"
