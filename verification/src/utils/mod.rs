pub mod ppm_writer;

pub use ppm_writer::PPMWriter;
