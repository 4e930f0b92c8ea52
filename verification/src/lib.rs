//! Backend logic of a desktop application shell: the greeting shown by the
//! frontend, and the rules that turn a finished child process into the reply
//! handed back over the bridge.

pub mod greeter;
pub mod text;
pub mod runner;
