//! This crate enables backtraces to be attached to values, for debugging
//! where an error came from, without a cost where that is not wanted.
//!
//! There are two wrappers of the same name and interface. `traced::Trace`
//! records the call stack when it is made and prints it with the value when
//! it is printed using `fmt::Debug` (`{:?}`); `untraced::Trace` is only a
//! newtype around the value. Which of the two a program uses is decided where
//! it is compiled, by the path it imports `Trace` from, and does not change
//! while it runs. The crate root hands out the one that traces, which also
//! resolves its stack on demand with `Trace::resolve`.
//!
//! # Usage
//!
//! ```rust
//! use debugtrace::Trace;
//!
//! fn foo() -> Trace<u32> {
//!     Trace::new(123)
//! }
//!
//! fn main() {
//!     let e = foo();
//!
//!     println!("{:?}", e);
//! }
//! ```
//!
//! This will output something like the following:
//!
//! ```text
//! 123 at
//!    0       0x104f888d8 - foo::h83f9455bde0e24228Oe (src/main.rs:6)
//!    1       0x104f8978b - main::hd70e3ccce038deb2gPe (src/main.rs:10)
//!    2       0x104f9c312 - sys_common::unwind::try::try_fn::h4103587514840227558 (<unknown>:<unknown>)
//!    3       0x104f9ab48 - __rust_try (<unknown>:<unknown>)
//!    4       0x104f9c1b9 - rt::lang_start::h216753457f385fdaJCx (<unknown>:<unknown>)
//!    5       0x104f8fb69 - main (<unknown>:<unknown>)
//! ```
//!
//! With `debugtrace::untraced::Trace` in its place no backtrace is collected,
//! and the output is only:
//!
//! ```text
//! 123
//! ```
//!
//! Note that this crate operates under the same restrictions that `backtrace`
//! does, which means that file and line-number information is not always
//! available.

pub mod capture;
pub mod frame;
pub mod print;
pub mod symbolize;
pub mod text;
pub mod traced;
pub mod untraced;

pub use crate::frame::StackFrame;
pub use crate::traced::Result;
pub use crate::traced::Trace;
