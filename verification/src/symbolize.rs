//! The symbol resolver: from a captured address to the descriptor of the
//! frame it lies in.
//!
//! What is known about an address comes from the symbol tables and the debug
//! information of the running program. This module asks for it and decides
//! what to make of the answer: which symbol speaks for the address, which
//! name to show for it, and what to put where nothing was found. Resolution
//! never fails; it only knows less.

use vstd::prelude::*;
use crate::frame::address_text;
use crate::frame::frame_text;
use crate::frame::line_or_unknown;
use crate::frame::text_or_unknown;
use crate::frame::text_view;
use crate::frame::unknown_frame;
use crate::frame::unknown_marker;
use crate::frame::FrameView;
use crate::frame::StackFrame;

verus! {

/// What the symbol tables say about one address, as plain values.
pub struct RawSymbol {
    /// The name as it stands in the symbol table, usually mangled.
    pub name: Option<Vec<u8>>,
    /// The address at which the symbol starts.
    pub addr: Option<usize>,
    /// The source file.
    pub file: Option<String>,
    /// The line in the source file.
    pub line: Option<u32>,
}

/// What a `RawSymbol` holds, with each text as a sequence.
pub struct SymbolView {
    pub name: Option<Seq<u8>>,
    pub addr: Option<usize>,
    pub file: Option<Seq<char>>,
    pub line: Option<u32>,
}

impl View for RawSymbol {
    type V = SymbolView;

    open spec fn view(&self) -> SymbolView {
        SymbolView {
            name: match self.name {
                Some(bytes) => Some(bytes@),
                None => None,
            },
            addr: self.addr,
            file: text_view(self.file),
            line: self.line,
        }
    }
}

/// The text that `String::from_utf8_lossy` makes of `bytes`.
pub uninterp spec fn utf8_lossy(bytes: Seq<u8>) -> Seq<char>;

/// What `rustc_demangle::try_demangle` makes of `mangled`: the readable name,
/// or `None` where `mangled` is not a mangled name.
pub uninterp spec fn demangled(mangled: Seq<char>) -> Option<Seq<char>>;

/// `String::from_utf8_lossy`. Trusted: the text depends on the bytes alone.
/// Bytes that are no valid UTF-8 come out as replacement characters.
#[verifier::external_body]
fn lossy_text(bytes: &Vec<u8>) -> (text: String)
    ensures
        text@ == utf8_lossy(bytes@),
{
    String::from_utf8_lossy(bytes).into_owned()
}

/// `rustc_demangle::try_demangle`, and `to_string` on what it returns.
/// Trusted: the answer depends on the mangled name alone. It is `None`
/// exactly where the demangler reports that this is no mangled name.
#[verifier::external_body]
fn demangle(mangled: &str) -> (name: Option<String>)
    ensures
        text_view(name) == demangled(mangled@),
{
    rustc_demangle::try_demangle(mangled).ok().map(|readable| readable.to_string())
}

/// `backtrace::resolve`, with `Symbol::name`, `addr`, `filename_raw` and
/// `lineno` for each symbol it yields, in the order it yields them. Nothing
/// is claimed of what comes back: there may be no symbol for an address, or
/// several where calls were inlined.
#[verifier::external_body]
fn symbols_at(ip: usize) -> (found: Vec<RawSymbol>) {
    let mut found: Vec<RawSymbol> = Vec::new();
    backtrace::resolve(ip as _, |symbol| {
        found.push(RawSymbol {
            name: symbol.name().map(|name| name.as_bytes().to_vec()),
            addr: symbol.addr().map(|addr| addr as usize),
            file: symbol.filename_raw().map(|file| file.to_str_lossy().into_owned()),
            line: symbol.lineno(),
        });
    });
    found
}

/// The name to show, given the mangled one and what demangling made of it:
/// the demangled name, or the mangled one as it is where there is none.
pub open spec fn chosen_name(mangled: Seq<char>, readable: Option<Seq<char>>) -> Seq<char> {
    match readable {
        Some(name) => name,
        None => mangled,
    }
}

/// The name to show for the symbol whose name in the symbol table is `bytes`.
pub open spec fn readable_name(bytes: Seq<u8>) -> Seq<char> {
    chosen_name(utf8_lossy(bytes), demangled(utf8_lossy(bytes)))
}

/// The descriptor of the frame at `ip` for which `symbol` speaks.
pub open spec fn frame_of_symbol(ip: usize, symbol: SymbolView) -> FrameView {
    FrameView {
        ip,
        name: match symbol.name {
            Some(bytes) => Some(readable_name(bytes)),
            None => None,
        },
        addr: symbol.addr,
        file: symbol.file,
        line: symbol.line,
    }
}

/// The descriptor of the frame at `ip`, given the symbols found for it: the
/// last symbol speaks for the address, and with no symbol nothing is known.
pub open spec fn described(ip: usize, symbols: Seq<RawSymbol>) -> FrameView {
    if symbols.len() == 0 {
        unknown_frame(ip)
    } else {
        frame_of_symbol(ip, symbols.last()@)
    }
}

/// `frame` is a descriptor that the symbols of some program give for `ip`.
pub open spec fn describes(ip: usize, frame: FrameView) -> bool {
    exists|symbols: Seq<RawSymbol>| frame == #[trigger] described(ip, symbols)
}

/// What each of `frames` holds, in the same order.
pub open spec fn frame_views(frames: Seq<StackFrame>) -> Seq<FrameView> {
    frames.map_values(|frame: StackFrame| frame@)
}

/// `frames` is a resolution of `addresses`: one descriptor for each address,
/// in the same order.
pub open spec fn resolution_of(addresses: Seq<usize>, frames: Seq<FrameView>) -> bool {
    &&& frames.len() == addresses.len()
    &&& forall|i: int| 0 <= i < addresses.len() ==> describes(addresses[i], #[trigger] frames[i])
}

/// Picks the name to show.
pub fn choose_name(mangled: String, readable: Option<String>) -> (name: String)
    ensures
        name@ == chosen_name(mangled@, text_view(readable)),
{
    match readable {
        Some(name) => name,
        None => mangled,
    }
}

/// Turns the name of a symbol as the symbol table has it into the name to
/// show: the bytes become text, and the text is demangled where it can be.
pub fn read_name(bytes: &Vec<u8>) -> (name: String)
    ensures
        name@ == readable_name(bytes@),
{
    let mangled = lossy_text(bytes);
    let readable = demangle(mangled.as_str());
    choose_name(mangled, readable)
}

/// Makes the descriptor of the frame at `ip` from the symbols found for it.
pub fn describe(ip: usize, symbols: Vec<RawSymbol>) -> (frame: StackFrame)
    ensures
        frame@ == described(ip, symbols@),
{
    let mut symbols = symbols;
    match symbols.pop() {
        None => StackFrame::unknown(ip),
        Some(symbol) => {
            let name = match &symbol.name {
                Some(bytes) => Some(read_name(bytes)),
                None => None,
            };
            StackFrame { ip, name, addr: symbol.addr, file: symbol.file, line: symbol.line }
        },
    }
}

/// Resolves one address. There is always a descriptor, whatever is found.
pub fn resolve_address(ip: usize) -> (frame: StackFrame)
    ensures
        describes(ip, frame@),
{
    let symbols = symbols_at(ip);
    describe(ip, symbols)
}

/// A resolution has one descriptor for each address, in the same place and
/// with that address in it, whatever the symbols of the program say. So any
/// two resolutions of the same addresses are as long as each other and
/// agree on every address.
pub proof fn lemma_resolutions_agree_on_addresses(
    addresses: Seq<usize>,
    first: Seq<FrameView>,
    second: Seq<FrameView>,
)
    requires
        resolution_of(addresses, first),
        resolution_of(addresses, second),
    ensures
        first.len() == second.len(),
        forall|i: int|
            0 <= i < addresses.len() ==> (#[trigger] first[i]).ip == addresses[i] && (
            #[trigger] second[i]).ip == addresses[i],
{
    assert forall|i: int| 0 <= i < addresses.len() implies (#[trigger] first[i]).ip
        == addresses[i] && (#[trigger] second[i]).ip == addresses[i] by {
        assert(describes(addresses[i], first[i]));
        assert(describes(addresses[i], second[i]));
    }
}

/// The descriptors depend on nothing but the addresses and the symbols found
/// for them: two resolutions of the same addresses that met the same symbols
/// are equal, field by field.
pub proof fn lemma_same_symbols_same_frames(
    addresses: Seq<usize>,
    symbols: Seq<Seq<RawSymbol>>,
    first: Seq<FrameView>,
    second: Seq<FrameView>,
)
    requires
        symbols.len() == addresses.len(),
        first.len() == addresses.len(),
        second.len() == addresses.len(),
        forall|i: int|
            0 <= i < addresses.len() ==> #[trigger] first[i] == described(addresses[i], symbols[i]),
        forall|i: int|
            0 <= i < addresses.len() ==> #[trigger] second[i] == described(
                addresses[i],
                symbols[i],
            ),
    ensures
        first == second,
        resolution_of(addresses, first),
{
    assert(first =~= second);
}

/// Where no symbol is found for an address, the descriptor has the address
/// and nothing else, and its text shows the marker for the name, the file and
/// the line. The marker is never an empty text.
pub proof fn lemma_unresolved_is_marked_unknown(ip: usize)
    ensures
        described(ip, Seq::empty()) == unknown_frame(ip),
        frame_text(unknown_frame(ip)) == address_text(ip) + " - "@ + unknown_marker() + " ("@
            + unknown_marker() + ":"@ + unknown_marker() + ")"@,
        unknown_marker().len() == 9,
{
    reveal_strlit("<unknown>");
}

/// A symbol without a name, a file or a line gives a descriptor whose text
/// shows the marker in the place of what is missing.
pub proof fn lemma_missing_field_is_marked_unknown(ip: usize, symbols: Seq<RawSymbol>)
    requires
        symbols.len() > 0,
    ensures
        symbols.last().name is None ==> text_or_unknown(described(ip, symbols).name)
            == unknown_marker(),
        symbols.last().file is None ==> text_or_unknown(described(ip, symbols).file)
            == unknown_marker(),
        symbols.last().line is None ==> line_or_unknown(described(ip, symbols).line)
            == unknown_marker(),
{
}

} // verus!
