[package]
name = "oh_my_tab_settings"
version = "0.1.0"
edition = "2021"
publish = false

# The GNUstep runtime is named so that the glue can be type-checked on hosts other than
# macOS; on Apple targets the system runtime is used in any case.
[dependencies]
block2 = { version = "=0.6.2", features = ["gnustep-2-1"] }
objc2 = { version = "=0.6.5", features = ["gnustep-2-1"] }
objc2-foundation = { version = "=0.3.2", default-features = false, features = ["std", "NSGeometry", "objc2-core-foundation", "gnustep-2-1"] }
