[package]
name = "attachments"
version = "0.1.0"
edition = "2021"
publish = false

[dependencies]
block2 = "*"
image = { version = "*", default-features = false, features = ["gif", "jpeg", "png", "webp"] }
log = "*"
objc2 = "*"
objc2-app-kit = { version = "*", default-features = false, features = ["NSApplication", "NSResponder", "std"] }
objc2-foundation = { version = "*", default-features = false, features = ["NSArray", "NSBundle", "NSError", "NSString", "NSURL", "std"] }
objc2-user-notifications = { version = "*", default-features = false, features = ["UNNotificationAttachment", "UNNotificationContent", "UNNotificationRequest", "UNNotificationSettings", "UNNotificationTrigger", "UNUserNotificationCenter", "block2", "bitflags", "std"] }
