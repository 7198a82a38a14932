//! The wrapper that remembers where it was made.
//!
//! `Trace::new` walks the call stack once and keeps the addresses of the
//! frames beside the value, without the two frames of this crate that the
//! walk begins with. They are never changed afterwards, and they take no
//! part in comparing or hashing: a wrapper compares as the value in it does.
//! The addresses are turned into names, files and lines only when somebody
//! asks, with `resolve` or by printing the wrapper.

use vstd::prelude::*;
use vstd::std_specs::cmp::OrdSpec;
use vstd::std_specs::cmp::PartialEqSpec;
use vstd::std_specs::cmp::PartialEqSpecImpl;
use vstd::std_specs::cmp::PartialOrdSpec;
use vstd::std_specs::cmp::PartialOrdSpecImpl;
use vstd::std_specs::convert::FromSpecImpl;
use vstd::string::StringExecFns;
use core::cmp::Ordering;
use core::fmt::Debug;
use core::hash::Hash;
use core::hash::Hasher;
use core::ops::Deref;
use core::ops::DerefMut;
use crate::capture::caller_frames;
use crate::capture::leave_out_inner;
use crate::capture::walk_stack;
use crate::frame::frame_text;
use crate::frame::FrameView;
use crate::frame::StackFrame;
use crate::symbolize::describes;
use crate::symbolize::frame_views;
use crate::symbolize::resolution_of;
use crate::symbolize::resolve_address;
use crate::print::prints;
use crate::print::show;
use crate::print::shows;
use crate::print::try_show;
use crate::print::write_text;
use crate::text::decimal;
use crate::text::push_decimal;
use crate::text::push_right_aligned;
use crate::text::right_aligned;

verus! {

/// Wrapper type containing a value and the backtrace to the place where it
/// was wrapped.
///
/// It is transparent and forwards `Hash`, `PartialOrd`, `Ord`, `PartialEq`
/// and `Eq` to the wrapped type. `Deref` and `DerefMut` make it easy to work
/// with the contained type.
pub struct Trace<T> {
    value: T,
    frames: Vec<usize>,
}

/// Type-alias to make it easier to slot in tracing of errors.
pub type Result<T, E> = core::result::Result<T, Trace<E>>;

/// One line of a printed trace: the index of the frame, right-aligned in
/// four characters, two spaces, the text of the frame, and a line feed.
pub open spec fn frame_line(index: nat, frame: FrameView) -> Seq<char> {
    right_aligned(decimal(index), 4) + "  "@ + frame_text(frame) + "\n"@
}

/// The lines of `frames`, numbered from zero in the order they stand in.
pub open spec fn frame_lines(frames: Seq<FrameView>) -> Seq<char>
    decreases frames.len(),
{
    if frames.len() == 0 {
        Seq::empty()
    } else {
        frame_lines(frames.drop_last()) + frame_line((frames.len() - 1) as nat, frames.last())
    }
}

/// A wrapper as it is printed for debugging: the text of the value, ` at`,
/// a line feed, and one line for each frame.
pub open spec fn trace_text(value_text: Seq<char>, frames: Seq<FrameView>) -> Seq<char> {
    value_text + " at\n"@ + frame_lines(frames)
}

/// Puts together the text of a wrapper from the text of its value and the
/// descriptors of its frames.
pub fn render(value_text: &str, frames: &Vec<StackFrame>) -> (out: String)
    ensures
        out@ == trace_text(value_text@, frame_views(frames@)),
{
    let ghost views = frame_views(frames@);
    let mut out = String::new();
    out.append(value_text);
    out.append(" at\n");
    let mut i: usize = 0;
    while i < frames.len()
        invariant
            i <= frames.len(),
            views == frame_views(frames@),
            out@ == value_text@ + " at\n"@ + frame_lines(views.take(i as int)),
        decreases frames.len() - i,
    {
        let mut index = String::new();
        push_decimal(&mut index, i as u64);
        let ghost before = out@;
        push_right_aligned(&mut out, index.as_str(), 4);
        out.append("  ");
        let text = frames[i].debug_string();
        out.append(text.as_str());
        out.append("\n");
        proof {
            let next = views.take(i + 1);
            assert(next.drop_last() =~= views.take(i as int));
            assert(next.last() == frames@[i as int]@);
            assert(out@ =~= before + frame_line(i as nat, views[i as int]));
        }
        i = i + 1;
    }
    assert(views.take(i as int) =~= views);
    out
}

/// Resolves the symbols of the stack-trace from the list of
/// instruction-pointers.
fn resolve<T>(t: &Trace<T>) -> (frames: Vec<StackFrame>)
    ensures
        resolution_of(t.frames(), frame_views(frames@)),
{
    let mut frames: Vec<StackFrame> = Vec::new();
    let mut i: usize = 0;
    while i < t.frames.len()
        invariant
            i <= t.frames.len(),
            resolution_of(t.frames().take(i as int), frame_views(frames@)),
        decreases t.frames.len() - i,
    {
        let ghost before = frame_views(frames@);
        let frame = resolve_address(t.frames[i]);
        frames.push(frame);
        proof {
            let addresses = t.frames().take(i + 1);
            let after = frame_views(frames@);
            assert forall|j: int| 0 <= j < addresses.len() implies describes(
                addresses[j],
                #[trigger] after[j],
            ) by {
                if j < i {
                    assert(after[j] == before[j]);
                    assert(addresses[j] == t.frames().take(i as int)[j]);
                }
            }
        }
        i = i + 1;
    }
    assert(t.frames().take(i as int) =~= t.frames());
    frames
}

impl<T> Trace<T> {
    /// The value in the wrapper.
    pub closed spec fn value(&self) -> T {
        self.value
    }

    /// The addresses captured when the wrapper was made, innermost first.
    pub closed spec fn frames(&self) -> Seq<usize> {
        self.frames@
    }

    /// Creates a new stack-trace wrapping a value.
    ///
    /// The stack is walked before this returns, and the frames of this crate
    /// are left out of what is kept. Never inlined: the frame of `new` is one
    /// of the two that are left out.
    #[inline(never)]
    pub fn new(t: T) -> (trace: Self)
        ensures
            trace.value() == t,
            exists|ips: Seq<usize>| trace.frames() == #[trigger] caller_frames(ips),
    {
        let walked = walk_stack();
        let frames = leave_out_inner(walked);
        Trace { value: t, frames }
    }

    /// Discards the information about where this trace was constructed and
    /// yields the wrapped data.
    #[inline(always)]
    pub fn unwrap(self) -> (t: T)
        ensures
            t == self.value(),
    {
        self.value
    }

    /// Resolves all of the symbols in the stack-trace and returns a list of
    /// them, innermost first. The first is the location of the invocation of
    /// `Trace::new`, in a build with optimization as in one without, on
    /// every platform where the stack walker can tell its own frames from
    /// those of its caller; the module `capture` says what comes first
    /// elsewhere.
    pub fn resolve(&self) -> (frames: Vec<StackFrame>)
        ensures
            resolution_of(self.frames(), frame_views(frames@)),
    {
        resolve(self)
    }
}

impl<T: Debug> Trace<T> {
    /// The wrapper as it is printed for debugging: the value as it prints
    /// itself, followed by the stack-trace to the place where the `Trace`
    /// was created, resolved now.
    pub fn debug_string(&self) -> (out: String)
        ensures
            exists|text: String, frames: Seq<FrameView>|
                {
                    &&& shows(&self.value(), text)
                    &&& resolution_of(self.frames(), frames)
                    &&& out@ == #[trigger] trace_text(text@, frames)
                },
    {
        let text = show(&self.value);
        let frames = resolve(self);
        let out = render(text.as_str(), &frames);
        assert(shows(&self.value(), text) && resolution_of(self.frames(), frame_views(frames@))
            && out@ == trace_text(text@, frame_views(frames@)));
        out
    }
}

/// Implementation of debug which debug-prints the inner type followed by the
/// stacktrace to the address where the `Trace` was created.
impl<T: Debug> Debug for Trace<T> {
    /// Writes what `debug_string` gives. Where the value fails to print
    /// itself, what it wrote until then is written, no trace follows, and the
    /// failure is handed back.
    fn fmt(&self, f: &mut core::fmt::Formatter<'_>) -> (written: core::result::Result<
        (),
        core::fmt::Error,
    >)
        ensures
            exists|text: String, outcome: core::result::Result<(), core::fmt::Error>|
                {
                    &&& #[trigger] prints(&self.value(), text, outcome)
                    &&& outcome is Err ==> written == outcome
                },
    {
        let printed = try_show(&self.value);
        assert(prints(&self.value(), printed.0, printed.1));
        let (text, outcome) = printed;
        match outcome {
            Ok(()) => {
                let frames = resolve(self);
                let out = render(text.as_str(), &frames);
                write_text(f, out.as_str())
            },
            Err(failure) => {
                let _ = write_text(f, text.as_str());
                Err(failure)
            },
        }
    }
}

impl<T: Clone> Clone for Trace<T> {
    /// Clones the value and the captured addresses. Nothing is walked or
    /// resolved again.
    fn clone(&self) -> (copy: Self)
        ensures
            cloned(self.value(), copy.value()),
            copy.frames() == self.frames(),
    {
        let frames = self.frames.clone();
        assert(frames@ =~= self.frames@);
        Trace { value: self.value.clone(), frames }
    }
}

/// Enables any error to automatically be wrapped in `Trace<E>` when
/// `Result<T, E>` is used with the `?` operator.
impl<T> From<T> for Trace<T> {
    #[inline(always)]
    fn from(t: T) -> (trace: Self)
        ensures
            trace.value() == t,
            exists|ips: Seq<usize>| trace.frames() == #[trigger] caller_frames(ips),
    {
        Trace::new(t)
    }
}

/// The wrapper that `from` makes depends on the stack at the time of the
/// call, which no function of the value alone can tell.
impl<T> FromSpecImpl<T> for Trace<T> {
    open spec fn obeys_from_spec() -> bool {
        false
    }

    open spec fn from_spec(t: T) -> Self {
        arbitrary()
    }
}

impl<T> Deref for Trace<T> {
    type Target = T;

    fn deref(&self) -> (t: &T)
        ensures
            *t == self.value(),
    {
        &self.value
    }
}

impl<T> DerefMut for Trace<T> {
    /// Lends the value out for changing. The captured addresses stay as
    /// they are.
    fn deref_mut(&mut self) -> (t: &mut T)
        ensures
            *t == old(self).value(),
            final(self).value() == *final(t),
            final(self).frames() == old(self).frames(),
    {
        &mut self.value
    }
}

/// `Hash::hash` of `value`. Nothing is claimed of the hasher afterwards:
/// there is no model of a hasher to state it over.
#[verifier::external_body]
fn feed<T: Hash, H: Hasher>(value: &T, state: &mut H) {
    Hash::hash(value, state)
}

impl<T: Hash> Hash for Trace<T> {
    /// Feeds the value to the hasher, and never the captured addresses.
    fn hash<H: Hasher>(&self, state: &mut H) {
        feed(&self.value, state)
    }
}

impl<T: PartialEq> PartialEq for Trace<T> {
    fn eq(&self, rhs: &Trace<T>) -> (equal: bool) {
        self.value == rhs.value
    }
}

/// Two wrappers are equal exactly where their values are.
impl<T: PartialEq> PartialEqSpecImpl for Trace<T> {
    open spec fn obeys_eq_spec() -> bool {
        T::obeys_eq_spec()
    }

    open spec fn eq_spec(&self, rhs: &Trace<T>) -> bool {
        self.value().eq_spec(&rhs.value())
    }
}

impl<T: Eq> Eq for Trace<T> {}

impl<T: PartialOrd> PartialOrd for Trace<T> {
    fn partial_cmp(&self, rhs: &Trace<T>) -> (order: Option<Ordering>) {
        self.value.partial_cmp(&rhs.value)
    }
}

/// Two wrappers are ordered as their values are.
impl<T: PartialOrd> PartialOrdSpecImpl for Trace<T> {
    open spec fn obeys_partial_cmp_spec() -> bool {
        T::obeys_partial_cmp_spec()
    }

    open spec fn partial_cmp_spec(&self, rhs: &Trace<T>) -> Option<Ordering> {
        self.value().partial_cmp_spec(&rhs.value())
    }
}

impl<T: Ord> Ord for Trace<T> {
    /// `Ord::cmp` of the two values. Trusted: the order is the one that the
    /// values have among themselves, wherever the type of the values says
    /// what that is. Only the values are compared, never the captured
    /// addresses.
    #[verifier::external_body]
    fn cmp(&self, rhs: &Self) -> (order: Ordering)
        ensures
            T::obeys_cmp_spec() ==> order == self.value().cmp_spec(&rhs.value()),
    {
        Ord::cmp(&self.value, &rhs.value)
    }
}

/// Wrapping a value and unwrapping it again gives the value back, wherever
/// the wrapper was made.
pub proof fn lemma_unwrap_returns_wrapped<T>(v: T, trace: Trace<T>, out: T)
    requires
        call_ensures(Trace::<T>::new, (v,), trace),
        call_ensures(Trace::<T>::unwrap, (trace,), out),
    ensures
        out == v,
{
}

/// Two wrappers compare equal exactly where the values they were made of
/// do, wherever each of them was made.
pub proof fn lemma_eq_ignores_trace<T: PartialEq>(
    v1: T,
    v2: T,
    t1: Trace<T>,
    t2: Trace<T>,
    equal: bool,
)
    requires
        T::obeys_eq_spec(),
        call_ensures(Trace::<T>::new, (v1,), t1),
        call_ensures(Trace::<T>::new, (v2,), t2),
        call_ensures(Trace::<T>::eq, (&t1, &t2), equal),
    ensures
        equal == v1.eq_spec(&v2),
{
}

/// Two wrappers are in the order that the values they were made of are in,
/// wherever each of them was made.
pub proof fn lemma_cmp_ignores_trace<T: Ord>(
    v1: T,
    v2: T,
    t1: Trace<T>,
    t2: Trace<T>,
    order: Ordering,
)
    requires
        T::obeys_cmp_spec(),
        call_ensures(Trace::<T>::new, (v1,), t1),
        call_ensures(Trace::<T>::new, (v2,), t2),
        call_ensures(Trace::<T>::cmp, (&t1, &t2), order),
    ensures
        order == v1.cmp_spec(&v2),
{
}

} // verus!
