use vstd::prelude::*;

verus! {

/// What the terminal reported about itself.
#[derive(Clone, Copy, Debug, PartialEq, Eq, Structural)]
pub enum TerminalEvent {
    /// Sixel graphics can be used, up to this size in pixels (0: unbounded).
    SixelSupported { width: u32, height: u32 },
}

#[derive(Clone, Copy, Debug, PartialEq, Eq, Structural)]
pub enum Event {
    Terminal(TerminalEvent),
}

/// Outcome of feeding one byte to a parser.
#[derive(Clone, Copy, Debug, PartialEq, Eq, Structural)]
pub enum ParseControlFlow {
    /// The sequence goes on.
    Continue,
    /// The sequence is over, with the event it carried, if any.
    Break(Option<Event>),
}

/// Incremental parser of a graphics attribute report: `item;status;...S`.
#[derive(Clone, Debug)]
pub struct Graphics {
    /// Parameters read so far.
    pub params: Vec<u32>,
    /// Digits of the parameter being read.
    pub buffer: Vec<u8>,
}

pub open spec fn is_digit(b: u8) -> bool {
    48 <= b <= 57
}

/// Value of a string of ASCII digits.
pub open spec fn digits_value(s: Seq<u8>) -> nat
    decreases s.len(),
{
    if s.len() == 0 {
        0
    } else {
        digits_value(s.drop_last()) * 10 + (s.last() - 48) as nat
    }
}

/// The parameter that pending digits make: 0 when there are none, nothing
/// when their value does not fit in 32 bits.
pub open spec fn param_of(digits: Seq<u8>) -> Seq<u32> {
    if digits.len() == 0 {
        seq![0u32]
    } else if digits_value(digits) <= u32::MAX {
        seq![digits_value(digits) as u32]
    } else {
        Seq::empty()
    }
}

/// The event that a complete list of parameters stands for.
pub open spec fn event_of(params: Seq<u32>) -> Option<Event> {
    if params.len() >= 2 && params[0] == 2 && params[1] == 0 {
        Some(
            Event::Terminal(
                TerminalEvent::SixelSupported {
                    width: if params.len() > 2 { params[2] } else { 0 },
                    height: if params.len() > 3 { params[3] } else { 0 },
                },
            ),
        )
    } else {
        None
    }
}

pub(crate) proof fn lemma_value_grows(s: Seq<u8>, d: u8)
    requires
        is_digit(d),
    ensures
        digits_value(s.push(d)) == digits_value(s) * 10 + (d - 48) as nat,
        digits_value(s.push(d)) >= digits_value(s),
{
    assert(s.push(d).drop_last() =~= s);
}

impl Graphics {
    pub open spec fn wf(&self) -> bool {
        forall|i: int| 0 <= i < self.buffer@.len() ==> is_digit(#[trigger] self.buffer@[i])
    }

    pub fn new() -> (g: Graphics)
        ensures
            g.wf(),
            g.params@ == Seq::<u32>::empty(),
            g.buffer@ == Seq::<u8>::empty(),
    {
        Graphics { params: Vec::new(), buffer: Vec::new() }
    }

    /// Feeds one byte of a report. Digits accumulate, `;` ends a parameter,
    /// `S` ends the report with its event; any other byte abandons it. The
    /// state is cleared whenever the report ends.
    pub fn parse(&mut self, key: u8) -> (r: ParseControlFlow)
        requires
            old(self).wf(),
        ensures
            final(self).wf(),
            is_digit(key) ==> r == ParseControlFlow::Continue && final(self).buffer@ == old(self).buffer@.push(key)
                && final(self).params@ == old(self).params@,
            key == 59 ==> r == ParseControlFlow::Continue && final(self).buffer@ == Seq::<u8>::empty()
                && final(self).params@ == old(self).params@ + param_of(old(self).buffer@),
            key == 83 ==> r == ParseControlFlow::Break(event_of(old(self).params@ + param_of(old(self).buffer@))),
            !is_digit(key) && key != 59 && key != 83 ==> r == ParseControlFlow::Break(None),
            !is_digit(key) && key != 59 ==> final(self).buffer@ == Seq::<u8>::empty()
                && final(self).params@ == Seq::<u32>::empty(),
    {
        if 48 <= key && key <= 57 {
            self.buffer.push(key);
            ParseControlFlow::Continue
        } else if key == 59 {
            self.push_param();
            ParseControlFlow::Continue
        } else if key == 83 {
            self.push_param();
            ParseControlFlow::Break(self.event())
        } else {
            self.params.clear();
            self.buffer.clear();
            ParseControlFlow::Break(None)
        }
    }

    fn push_param(&mut self)
        requires
            old(self).wf(),
        ensures
            final(self).wf(),
            final(self).buffer@ == Seq::<u8>::empty(),
            final(self).params@ == old(self).params@ + param_of(old(self).buffer@),
    {
        if self.buffer.len() == 0 {
            self.params.push(0);
            assert(self.params@ =~= old(self).params@ + param_of(old(self).buffer@));
            return;
        }
        let mut acc: u64 = 0;
        let mut overflow = false;
        let mut i: usize = 0;
        while i < self.buffer.len()
            invariant
                self.wf(),
                self.buffer@ == old(self).buffer@,
                self.params@ == old(self).params@,
                i <= self.buffer@.len(),
                !overflow ==> acc as nat == digits_value(self.buffer@.subrange(0, i as int)) && acc
                    <= u32::MAX,
                overflow ==> digits_value(self.buffer@.subrange(0, i as int)) > u32::MAX,
            decreases self.buffer@.len() - i,
        {
            let d = self.buffer[i];
            proof {
                assert(is_digit(self.buffer@[i as int]));
                lemma_value_grows(self.buffer@.subrange(0, i as int), d);
                assert(self.buffer@.subrange(0, i as int).push(d) =~= self.buffer@.subrange(0, i + 1));
            }
            if !overflow {
                acc = acc * 10 + (d - 48) as u64;
                if acc > 0xffff_ffff {
                    overflow = true;
                }
            }
            i = i + 1;
        }
        assert(self.buffer@.subrange(0, i as int) =~= self.buffer@);
        if !overflow {
            self.params.push(acc as u32);
        }
        assert(self.params@ =~= old(self).params@ + param_of(old(self).buffer@));
        self.buffer.clear();
    }

    fn event(&mut self) -> (e: Option<Event>)
        ensures
            e == event_of(old(self).params@),
            final(self).params@ == Seq::<u32>::empty(),
            final(self).buffer@ == old(self).buffer@,
    {
        let mut params: Vec<u32> = Vec::new();
        std::mem::swap(&mut params, &mut self.params);
        if params.len() >= 2 {
            let item = params[0];
            let status = params[1];
            if item == 2 && status == 0 {
                let width = if params.len() > 2 { params[2] } else { 0 };
                let height = if params.len() > 3 { params[3] } else { 0 };
                return Some(Event::Terminal(TerminalEvent::SixelSupported { width, height }));
            }
        }
        None
    }
}

} // verus!
