//! The verified core of a hardware password vault: sealing passwords into
//! AES-256-GCM packets, the rules for storing them on flash, and the keyboard
//! layout used to type them into a host over USB.
pub mod aes;
pub mod bounded;
pub mod storage;
pub mod usb;
