[package]
name = "button_menu"
version = "0.1.0"
edition = "2021"
publish = false

[dependencies]
cortex-m-rtic = "1.1"
embedded-graphics = "0.7"
embedded-hal = "0.2"
panic-semihosting = "0.6"
sh1106 = "0.4"
stm32f1xx-hal = { version = "0.10", features = ["stm32f103", "rt", "medium"] }
systick-monotonic = "1.0"
