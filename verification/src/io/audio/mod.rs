pub mod envelope;
pub mod length_counter;
pub mod sweep;
pub mod pulse;
pub mod noise;
pub mod wave;
pub mod apu;
