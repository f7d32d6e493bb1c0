pub mod interrupts;
pub mod clock;
pub mod registers;
pub mod instructions;
pub mod cpu;
pub mod tick;
pub mod step;
