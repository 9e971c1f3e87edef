[package]
name = "specfilter"
version = "0.1.0"
edition = "2021"
publish = false

[dependencies]
num-traits = "=0.2.19"
vst = "=0.4.0"
array_math = "=0.2.45"
real_time_fir_iir_filters = "=1.4.3"
signal_processing = "=0.3.0"
rustc_apfloat = "*"
