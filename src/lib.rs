//! A turn-based conversation with a text-completion service: the session
//! that alternates requests and lines of input, the commands that can be
//! given at the input prompt, the transcript records, and the wrapping of
//! replies for display. The driver performs the input, output and network
//! calls that the session asks for.

pub mod client;
pub mod command;
pub mod format;
pub mod model_example_data;
pub mod session;
pub mod transcript;
