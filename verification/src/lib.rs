pub mod font;
pub mod framebuffer;
pub mod framebuffer_laws;
pub mod gdt;
pub mod interrupts;
pub mod io;
pub mod keyboard;
pub mod logger;
pub mod utils;
