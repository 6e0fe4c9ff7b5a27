//! Emulation context shared between components.
use vstd::prelude::*;
use vstd::string::*;

verus! {

/// A stack of symbol names, used to show where execution came from.
pub struct CallStack {
    stack: Vec<String>,
}

/// The lines that a call stack prints for `entries`, most recent first:
/// each entry as "    at <entry>" and a line break.
pub open spec fn callstack_lines(entries: Seq<String>) -> Seq<char>
    decreases entries.len(),
{
    if entries.len() == 0 {
        Seq::empty()
    } else {
        "    at "@ + entries.last()@ + "\n"@ + callstack_lines(entries.drop_last())
    }
}

/// The text of a call stack: a line break, the lines of the entries and a
/// final line break.
pub open spec fn callstack_text(entries: Seq<String>) -> Seq<char> {
    "\n"@ + callstack_lines(entries) + "\n"@
}

impl CallStack {
    /// The entries, oldest first.
    pub closed spec fn view(&self) -> Seq<String> {
        self.stack@
    }

    pub fn new() -> (r: Self)
        ensures
            r@ == Seq::<String>::empty(),
    {
        Self { stack: Vec::new() }
    }

    pub fn push(&mut self, addr: String)
        ensures
            final(self)@ == old(self)@.push(addr),
    {
        self.stack.push(addr);
    }

    pub fn pop(&mut self) -> (r: Option<String>)
        ensures
            old(self)@.len() == 0 ==> r.is_none() && final(self)@ == old(self)@,
            old(self)@.len() > 0 ==> r == Some(old(self)@.last()) && final(self)@
                == old(self)@.drop_last(),
    {
        self.stack.pop()
    }

    pub fn peek(&self) -> (r: Option<&String>)
        ensures
            self@.len() == 0 ==> r.is_none(),
            self@.len() > 0 ==> r == Some(&self@.last()),
    {
        if self.stack.len() > 0 {
            Some(&self.stack[self.stack.len() - 1])
        } else {
            None
        }
    }

    pub fn is_empty(&self) -> (r: bool)
        ensures
            r == (self@.len() == 0),
    {
        self.stack.len() == 0
    }

    pub fn len(&self) -> (r: usize)
        ensures
            r == self@.len(),
    {
        self.stack.len()
    }

    /// The printed form of the stack, most recent entry first.
    pub fn debug_string(&self) -> (r: String)
        ensures
            r@ == callstack_text(self@),
    {
        let mut out = String::new();
        out.append("\n");
        let mut i = self.stack.len();
        proof {
            assert(self@.take(i as int) =~= self@);
        }
        while i > 0
            invariant
                i <= self@.len(),
                out@ + callstack_lines(self@.take(i as int)) == "\n"@ + callstack_lines(self@),
            decreases i,
        {
            proof {
                assert(self@.take(i as int).drop_last() == self@.take(i - 1));
                assert(self@.take(i as int).last() == self@[i - 1]);
            }
            out.append("    at ");
            out.append(self.stack[i - 1].as_str());
            out.append("\n");
            i = i - 1;
        }
        proof {
            assert(self@.take(0) == Seq::<String>::empty());
        }
        out.append("\n");
        out
    }
}

/// A pop gives back the entry pushed last and leaves the stack as it was
/// before that push.
pub proof fn law_push_then_pop(entries: Seq<String>, entry: String)
    ensures
        entries.push(entry).len() > 0,
        entries.push(entry).last() == entry,
        entries.push(entry).drop_last() == entries,
{
    assert(entries.push(entry).drop_last() =~= entries);
}

} // verus!
