[package]
name = "gpui_platform"
version = "0.2.2"
edition = "2021"
publish = false

[dependencies]
etagere = "=0.2.15"
seahash = "=4.1.0"
uuid = { version = "1", default-features = false }
itertools = "*"
flume = "0.11"
async-task = "4.7"
parking_lot = "0.12"
futures = "0.3"
anyhow = "1"
log = "0.4"
libc = "0.2"
raw-window-handle = "0.6"
wasm-bindgen = "0.2"
js-sys = "0.3"
web-time = "1"
web-sys = { version = "0.3", features = ["Window", "Document", "Element", "HtmlElement", "HtmlCanvasElement", "HtmlInputElement", "Event", "EventTarget", "AddEventListenerOptions", "PointerEvent", "MouseEvent", "WheelEvent", "KeyboardEvent", "UiEvent", "CompositionEvent", "ClipboardEvent", "DataTransfer", "CssStyleDeclaration", "MediaQueryList", "DomRect", "Node", "console"] }
jni = "=0.22.4"
objc = "=0.2.7"
block = "0.1"
android-activity = { version = "0.6", features = ["native-activity"] }
wgpu = { version = "=30.0.1", default-features = false, features = ["std", "wgsl"] }
