//! Interrupt-handling core of a bare-metal kernel: the descriptor table, the chained interrupt
//! controllers, the keyboard/mouse controller handshake, the dispatcher and the text screen.
pub mod idt;
pub mod pic;
pub mod ps2;
pub mod dispatch;
pub mod vga;
