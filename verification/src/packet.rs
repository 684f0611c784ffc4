//! Command packets of the Razer protocol.
use vstd::prelude::*;

verus! {

/// Number of argument bytes that a packet carries.
pub const ARGS_CAPACITY: usize = 80;

/// `n` zero bytes.
pub open spec fn zeros(n: nat) -> Seq<u8> {
    Seq::new(n, |_i: int| 0u8)
}

/// The contents of a packet: the command, how many argument bytes are in
/// use, and the whole argument area.
pub struct PacketView {
    pub command: u16,
    pub data_size: u8,
    pub raw: Seq<u8>,
}

impl PacketView {
    /// The argument bytes in use.
    pub open spec fn args(self) -> Seq<u8> {
        self.raw.take(self.data_size as int)
    }

    /// The packet that `Packet::new(command, args)` builds.
    pub open spec fn request(command: u16, args: Seq<u8>) -> PacketView
        recommends
            args.len() <= ARGS_CAPACITY,
    {
        PacketView {
            command,
            data_size: args.len() as u8,
            raw: args + zeros((ARGS_CAPACITY - args.len()) as nat),
        }
    }

    pub open spec fn wf(self) -> bool {
        &&& self.raw.len() == ARGS_CAPACITY
        &&& self.data_size <= ARGS_CAPACITY
    }
}

/// The arguments in use of a request are those it was built with.
pub proof fn lemma_request_args(command: u16, args: Seq<u8>)
    requires
        args.len() <= ARGS_CAPACITY,
    ensures
        PacketView::request(command, args).args() == args,
        PacketView::request(command, args).wf(),
{
    assert(PacketView::request(command, args).args() =~= args);
}

/// A request or reply packet: a command code and up to 80 argument bytes.
pub struct Packet {
    command: u16,
    data_size: u8,
    args: Vec<u8>,
}

impl View for Packet {
    type V = PacketView;

    closed spec fn view(&self) -> PacketView {
        PacketView { command: self.command, data_size: self.data_size, raw: self.args@ }
    }
}

impl Packet {
    #[verifier::type_invariant]
    spec fn inv(self) -> bool {
        self@.wf()
    }

    /// A request for `command` with the argument bytes `args`.
    pub fn new(command: u16, args: &[u8]) -> (p: Packet)
        requires
            args@.len() <= ARGS_CAPACITY,
        ensures
            p@ == PacketView::request(command, args@),
            p@.wf(),
            p@.args() == args@,
    {
        let p = Self::with_area(command, args.len() as u8, args);
        assert(p@.args() =~= args@);
        p
    }

    /// A reply packet: the command, the number of argument bytes in use and
    /// the start of the argument area, the rest of which is zero.  `None` when
    /// either count exceeds the 80 bytes of the area.
    pub fn from_reply(command: u16, data_size: u8, area: &[u8]) -> (r: Option<Packet>)
        ensures
            r is Some <==> (data_size as usize <= ARGS_CAPACITY && area@.len() <= ARGS_CAPACITY),
            r matches Some(p) ==> p@ == (PacketView {
                command,
                data_size,
                raw: area@ + zeros((ARGS_CAPACITY - area@.len()) as nat),
            }),
    {
        if data_size as usize <= ARGS_CAPACITY && area.len() <= ARGS_CAPACITY {
            Some(Self::with_area(command, data_size, area))
        } else {
            None
        }
    }

    fn with_area(command: u16, data_size: u8, area: &[u8]) -> (p: Packet)
        requires
            data_size as usize <= ARGS_CAPACITY,
            area@.len() <= ARGS_CAPACITY,
        ensures
            p@ == (PacketView {
                command,
                data_size,
                raw: area@ + zeros((ARGS_CAPACITY - area@.len()) as nat),
            }),
    {
        let mut args: Vec<u8> = Vec::new();
        let mut i: usize = 0;
        while i < ARGS_CAPACITY
            invariant
                i <= ARGS_CAPACITY,
                area@.len() <= ARGS_CAPACITY,
                args@.len() == i,
                forall|j: int|
                    0 <= j < i ==> #[trigger] args@[j] == (if j < area@.len() {
                        area@[j]
                    } else {
                        0u8
                    }),
            decreases ARGS_CAPACITY - i,
        {
            if i < area.len() {
                args.push(area[i]);
            } else {
                args.push(0);
            }
            i = i + 1;
        }
        let p = Packet { command, data_size, args };
        assert(p@.raw =~= area@ + zeros((ARGS_CAPACITY - area@.len()) as nat));
        p
    }

    /// The command code.
    pub fn get_command(&self) -> (c: u16)
        ensures
            c == self@.command,
    {
        self.command
    }

    /// The argument bytes in use.
    pub fn get_args(&self) -> (a: &[u8])
        ensures
            a@ == self@.args(),
            a@.len() == self@.data_size,
            self@.wf(),
    {
        proof {
            use_type_invariant(self);
        }
        vstd::slice::slice_subrange(self.args.as_slice(), 0, self.data_size as usize)
    }

    /// The whole argument area, whatever the number of bytes in use.
    pub fn get_raw_args(&self) -> (a: &[u8])
        ensures
            a@ == self@.raw,
            self@.wf(),
    {
        proof {
            use_type_invariant(self);
        }
        self.args.as_slice()
    }
}

impl Clone for Packet {
    fn clone(&self) -> (p: Packet)
        ensures
            p@ == self@,
    {
        proof {
            use_type_invariant(self);
        }
        let args = self.args.clone();
        assert(args@ =~= self.args@);
        Packet { command: self.command, data_size: self.data_size, args }
    }
}

} // verus!
