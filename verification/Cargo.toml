[package]
name = "drag_context"
version = "0.1.0"
edition = "2021"
publish = false

[dependencies]
core-foundation = { version = "=0.9.4", default-features = false }
core-graphics = { version = "=0.23.2", default-features = false }
icrate = { version = "=0.0.4", default-features = false, features = [
    "std",
    "gnustep-2-0",
    "Foundation",
    "Foundation_NSArray",
    "Foundation_NSProcessInfo",
    "Foundation_NSString",
    "AppKit",
    "AppKit_NSApplication",
    "AppKit_NSDraggingItem",
    "AppKit_NSDraggingSession",
    "AppKit_NSEvent",
    "AppKit_NSGraphicsContext",
    "AppKit_NSImage",
    "AppKit_NSResponder",
    "AppKit_NSView",
    "AppKit_NSWindow",
] }
irondash_engine_context = "=0.5.0"
irondash_message_channel = "=0.5.0"
irondash_run_loop = "=0.5.0"
objc2 = { version = "=0.4.1", default-features = false, features = ["std", "gnustep-2-0"] }
