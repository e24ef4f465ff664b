[package]
name = "jpeg_to_pdf"
version = "0.2.3"
edition = "2021"
publish = false

[dependencies]
img-parts = "0.2"
jpeg-decoder = "0.1"
kamadak-exif = "0.5"
printpdf = "0.4"
structopt = "0.3"
