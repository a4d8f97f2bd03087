//! A small boundary library: numeric and text utilities meant to sit behind a
//! C-compatible interface. The exported operations are pure computations, an
//! owned-text handle whose release cannot be repeated, and two iteration
//! operations that report each processed value to a caller-supplied callback.
pub mod arith;
pub mod callback;
pub mod text;

pub use arith::add_numbers;
pub use arith::fibonacci;
pub use callback::Callback;
pub use callback::DataWithCallback;
pub use callback::Recorder;
pub use callback::SilentCallback;
pub use callback::process_data_with_callback;
pub use callback::sum_with_callback;
pub use text::OwnedText;
pub use text::free_rust_string;
pub use text::process_string;
