//! The descriptor that resolution produces for one captured address, and the
//! one line of text that stands for it in a printed trace.

use vstd::prelude::*;
use vstd::std_specs::cmp::PartialEqSpecImpl;
use vstd::string::StringExecFns;
use core::fmt::Debug;
use crate::print::write_text;
use crate::text::decimal;
use crate::text::hexadecimal;
use crate::text::push_decimal;
use crate::text::push_hexadecimal;
use crate::text::push_right_aligned;
use crate::text::right_aligned;

verus! {

/// A stack frame with what the running program knows about it.
///
/// Only the address is always there. A field that could not be found out is
/// `None`; nothing is made up in its place.
#[derive(Eq, PartialOrd, Ord, Hash)]
pub struct StackFrame {
    /// Instruction pointer
    pub ip: usize,
    /// Function name if found
    pub name: Option<String>,
    /// Address at which the function starts
    pub addr: Option<usize>,
    /// Source file name
    pub file: Option<String>,
    /// Source line number
    pub line: Option<u32>,
}

/// What a `StackFrame` holds, with each text as a sequence of characters.
pub struct FrameView {
    pub ip: usize,
    pub name: Option<Seq<char>>,
    pub addr: Option<usize>,
    pub file: Option<Seq<char>>,
    pub line: Option<u32>,
}

/// The characters of a text that may be missing.
pub open spec fn text_view(text: Option<String>) -> Option<Seq<char>> {
    match text {
        Some(t) => Some(t@),
        None => None,
    }
}

impl View for StackFrame {
    type V = FrameView;

    open spec fn view(&self) -> FrameView {
        FrameView {
            ip: self.ip,
            name: text_view(self.name),
            addr: self.addr,
            file: text_view(self.file),
            line: self.line,
        }
    }
}

/// The frame of which nothing but the address is known.
pub open spec fn unknown_frame(ip: usize) -> FrameView {
    FrameView { ip, name: None, addr: None, file: None, line: None }
}

/// The marker printed in place of a field that is not known.
pub open spec fn unknown_marker() -> Seq<char> {
    "<unknown>"@
}

/// A text, or the marker where there is none.
pub open spec fn text_or_unknown(text: Option<Seq<char>>) -> Seq<char> {
    match text {
        Some(t) => t,
        None => unknown_marker(),
    }
}

/// A line number in base ten, or the marker where there is none.
pub open spec fn line_or_unknown(line: Option<u32>) -> Seq<char> {
    match line {
        Some(n) => decimal(n as nat),
        None => unknown_marker(),
    }
}

/// An address as `0x` and its digits in base sixteen, right-aligned in
/// sixteen characters.
pub open spec fn address_text(ip: usize) -> Seq<char> {
    right_aligned("0x"@ + hexadecimal(ip as nat), 16)
}

/// The text of one frame: `<address> - <name> (<file>:<line>)`.
pub open spec fn frame_text(frame: FrameView) -> Seq<char> {
    address_text(frame.ip) + " - "@ + text_or_unknown(frame.name) + " ("@ + text_or_unknown(
        frame.file,
    ) + ":"@ + line_or_unknown(frame.line) + ")"@
}

impl StackFrame {
    /// The frame at `ip` with every other field unknown.
    pub fn unknown(ip: usize) -> (frame: StackFrame)
        ensures
            frame@ == unknown_frame(ip),
    {
        StackFrame { ip, name: None, addr: None, file: None, line: None }
    }

    /// The text that stands for this frame in a printed trace.
    pub fn debug_string(&self) -> (out: String)
        ensures
            out@ == frame_text(self@),
    {
        let mut address = String::new();
        address.append("0x");
        push_hexadecimal(&mut address, self.ip as u64);
        let mut out = String::new();
        push_right_aligned(&mut out, address.as_str(), 16);
        out.append(" - ");
        match &self.name {
            Some(name) => out.append(name.as_str()),
            None => out.append("<unknown>"),
        }
        out.append(" (");
        match &self.file {
            Some(file) => out.append(file.as_str()),
            None => out.append("<unknown>"),
        }
        out.append(":");
        match self.line {
            Some(n) => push_decimal(&mut out, n as u64),
            None => out.append("<unknown>"),
        }
        out.append(")");
        assert(out@ =~= frame_text(self@));
        out
    }
}

/// A copy of a text that may be missing.
fn clone_text(text: &Option<String>) -> (copy: Option<String>)
    ensures
        text_view(copy) == text_view(*text),
{
    match text {
        Some(t) => Some(t.clone()),
        None => None,
    }
}

/// Whether two texts that may be missing are the same.
fn same_text(a: &Option<String>, b: &Option<String>) -> (same: bool)
    ensures
        same == (text_view(*a) == text_view(*b)),
{
    match (a, b) {
        (Some(x), Some(y)) => *x == *y,
        (None, None) => true,
        _ => false,
    }
}

impl Clone for StackFrame {
    fn clone(&self) -> (copy: Self)
        ensures
            copy@ == self@,
    {
        StackFrame {
            ip: self.ip,
            name: clone_text(&self.name),
            addr: self.addr,
            file: clone_text(&self.file),
            line: self.line,
        }
    }
}

impl PartialEq for StackFrame {
    fn eq(&self, other: &StackFrame) -> (equal: bool) {
        self.ip == other.ip && same_text(&self.name, &other.name) && self.addr == other.addr
            && same_text(&self.file, &other.file) && self.line == other.line
    }
}

/// Two descriptors are equal exactly where all their fields are.
impl PartialEqSpecImpl for StackFrame {
    open spec fn obeys_eq_spec() -> bool {
        true
    }

    open spec fn eq_spec(&self, other: &StackFrame) -> bool {
        self@ == other@
    }
}

impl Debug for StackFrame {
    fn fmt(&self, f: &mut core::fmt::Formatter<'_>) -> (written: core::result::Result<
        (),
        core::fmt::Error,
    >) {
        let text = self.debug_string();
        write_text(f, text.as_str())
    }
}

} // verus!
