//! Bridge logic of a UART-to-USB-keyboard node: keyboard layouts, the
//! `#<DST>:<TEXT>` line protocol, escape sequences and HID reports.

pub mod ascii;
pub mod layout;
pub mod layout_qwerty;
pub mod layout_qwertz;
pub mod decimal;
pub mod latin9;
pub mod typing;
pub mod protocol;
pub mod assembler;
pub mod hid;
pub mod node;
