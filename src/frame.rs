//! The channel buffer shared by the OSC listener and the DMX transmitter.
use vstd::prelude::*;
use crate::osc::{routed_offset, OscRoute};
use vstd::string::StringSliceAdditionalSpecFns;

verus! {

/// One argument of an OSC message, as the channel decoder reads it.
#[derive(Debug, Clone, Copy, PartialEq, Eq)]
pub enum Arg {
    Int(i32),
    Long(i64),
    /// A floating-point argument, already clamped to [0, 1], scaled by 255
    /// and truncated to a channel byte.
    Scaled(u8),
    Char(char),
    Bool(bool),
    /// Any other argument type: the channel keeps its value.
    Other,
}

/// The byte an argument sets a channel to, given the channel's current
/// value: integers are clamped to [0, 255], a character gives the low byte
/// of its code, a boolean gives 0 or 1.
pub open spec fn channel_value(a: Arg, current: u8) -> u8 {
    match a {
        Arg::Int(v) => if v < 0 {
            0u8
        } else if v > 255 {
            255u8
        } else {
            v as u8
        },
        Arg::Long(v) => if v < 0 {
            0u8
        } else if v > 255 {
            255u8
        } else {
            v as u8
        },
        Arg::Scaled(b) => b,
        Arg::Char(c) => ((c as u32) % 256) as u8,
        Arg::Bool(b) => if b {
            1u8
        } else {
            0u8
        },
        Arg::Other => current,
    }
}

/// The channel byte an argument gives; `current` is the channel's value.
pub fn decode_arg(a: &Arg, current: u8) -> (r: u8)
    ensures
        r == channel_value(*a, current),
{
    match a {
        Arg::Int(v) => if *v < 0 {
            0
        } else if *v > 255 {
            255
        } else {
            *v as u8
        },
        Arg::Long(v) => if *v < 0 {
            0
        } else if *v > 255 {
            255
        } else {
            *v as u8
        },
        Arg::Scaled(b) => *b,
        Arg::Char(c) => ((*c as u32) % 256) as u8,
        Arg::Bool(b) => if *b {
            1
        } else {
            0
        },
        Arg::Other => current,
    }
}

/// The buffer after the run `args` is written from `offset` on: channels
/// past the end of the buffer are dropped.
pub open spec fn run_written(buf: Seq<u8>, offset: int, args: Seq<Arg>) -> Seq<u8> {
    Seq::new(
        buf.len(),
        |i: int|
            if offset <= i < offset + args.len() {
                channel_value(args[i - offset], buf[i])
            } else {
                buf[i]
            },
    )
}

/// The buffer after a message to `addr` with arguments `args` reaches a
/// listener whose route has the prefix `prefix`.
pub open spec fn message_applied(prefix: Seq<u8>, addr: Seq<u8>, buf: Seq<u8>, args: Seq<Arg>) -> Seq<u8> {
    match routed_offset(prefix, addr) {
        Some(offset) => run_written(buf, offset as int, args),
        None => buf,
    }
}

/// The channel values of one universe; index 0 is DMX channel 1. Its
/// length is fixed when it is made.
pub struct FrameBuffer {
    data: Vec<u8>,
}

impl View for FrameBuffer {
    type V = Seq<u8>;

    closed spec fn view(&self) -> Seq<u8> {
        self.data@
    }
}

impl FrameBuffer {
    /// A buffer of `size` channels, all at zero.
    pub fn new(size: usize) -> (r: FrameBuffer)
        ensures
            r@ == Seq::new(size as nat, |i: int| 0u8),
    {
        let mut data: Vec<u8> = Vec::new();
        let mut i: usize = 0;
        while i < size
            invariant
                i <= size,
                data@ == Seq::new(i as nat, |j: int| 0u8),
            decreases size - i,
        {
            data.push(0);
            i = i + 1;
            assert(data@ =~= Seq::new(i as nat, |j: int| 0u8));
        }
        FrameBuffer { data }
    }

    /// The number of channels.
    pub fn len(&self) -> (r: usize)
        ensures
            r == self@.len(),
    {
        self.data.len()
    }

    /// The value of channel `i`.
    pub fn get(&self, i: usize) -> (r: u8)
        requires
            i < self@.len(),
        ensures
            r == self@[i as int],
    {
        self.data[i]
    }

    /// A copy of all channel values.
    pub fn snapshot(&self) -> (r: Vec<u8>)
        ensures
            r@ == self@,
    {
        self.data.clone()
    }

    /// Writes the run `args` from channel `offset` on; what would fall past
    /// the end of the buffer is dropped.
    pub fn write_run(&mut self, offset: usize, args: &[Arg])
        ensures
            final(self)@ == run_written(old(self)@, offset as int, args@),
    {
        let size = self.data.len();
        if offset >= size {
            assert(self.data@ =~= run_written(old(self)@, offset as int, args@));
            return;
        }
        let count: usize = if args.len() < size - offset {
            args.len()
        } else {
            size - offset
        };
        let mut k: usize = 0;
        while k < count
            invariant
                offset < size,
                size == old(self)@.len(),
                count <= args@.len(),
                offset + count <= size,
                k <= count,
                self.data@.len() == size,
                forall|i: int|
                    0 <= i < size ==> #[trigger] self.data@[i] == (if offset <= i < offset + k {
                        channel_value(args@[i - offset], old(self)@[i])
                    } else {
                        old(self)@[i]
                    }),
            decreases count - k,
        {
            let v = decode_arg(&args[k], self.data[offset + k]);
            self.data.set(offset + k, v);
            k = k + 1;
        }
        assert(self.data@ =~= run_written(old(self)@, offset as int, args@));
    }

    /// Applies a message to `addr` with arguments `args`, if `route` accepts
    /// its address; returns whether it did. A message outside the route, or
    /// whose offset is not a number, leaves the buffer as it was.
    pub fn apply_message(&mut self, route: &OscRoute, addr: &str, args: &[Arg]) -> (applied: bool)
        ensures
            applied == routed_offset(route@, addr.spec_bytes()) is Some,
            final(self)@ == message_applied(route@, addr.spec_bytes(), old(self)@, args@),
    {
        match route.offset_of(addr.as_bytes()) {
            Some(offset) => {
                self.write_run(offset, args);
                true
            },
            None => false,
        }
    }
}

/// Writing a run changes exactly the channels from the offset up to the
/// end of the run or of the buffer, whichever comes first, each to the value
/// its argument decodes to; the length and every other channel stay.
pub proof fn lemma_run_confined(buf: Seq<u8>, offset: int, args: Seq<Arg>)
    requires
        0 <= offset < buf.len(),
    ensures
        run_written(buf, offset, args).len() == buf.len(),
        forall|i: int|
            offset <= i < offset + args.len() && i < buf.len() ==> #[trigger] run_written(
                buf,
                offset,
                args,
            )[i] == channel_value(args[i - offset], buf[i]),
        forall|i: int|
            0 <= i < buf.len() && !(offset <= i < offset + args.len()) ==> #[trigger] run_written(
                buf,
                offset,
                args,
            )[i] == buf[i],
{
}

/// A message whose address does not begin with the route's prefix leaves the
/// buffer unchanged.
pub proof fn lemma_foreign_address_ignored(
    prefix: Seq<u8>,
    addr: Seq<u8>,
    buf: Seq<u8>,
    args: Seq<Arg>,
)
    requires
        !(prefix.len() <= addr.len() && addr.take(prefix.len() as int) == prefix),
    ensures
        message_applied(prefix, addr, buf, args) == buf,
{
}

/// A message whose address continues past the prefix with something that
/// is not a non-negative decimal offset leaves the buffer unchanged.
pub proof fn lemma_bad_offset_ignored(prefix: Seq<u8>, addr: Seq<u8>, buf: Seq<u8>, args: Seq<Arg>)
    requires
        prefix.len() <= addr.len(),
        crate::osc::offset_of_text(addr.skip(prefix.len() as int)) is Err,
    ensures
        message_applied(prefix, addr, buf, args) == buf,
{
}

} // verus!
