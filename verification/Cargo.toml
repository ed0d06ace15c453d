[package]
name = "kernel_core"
version = "0.1.0"
edition = "2021"
publish = false

[dependencies]
goblin = "*"
hashbrown = "*"
lazy_static = "*"
linked_list_allocator = "*"
log = "*"
spin = "*"
uefi = "*"
x2apic = "*"
x86 = "*"
x86_64 = "*"
