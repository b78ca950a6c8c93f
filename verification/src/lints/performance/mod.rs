pub mod inefficient_unwrap_or;
