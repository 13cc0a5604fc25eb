//! The wire format exchanged across the trust boundary.
//!
//! A [`Request`] describes one proxied call (operation selector plus up to
//! seven argument words). A [`Reply`] carries the outcome back (two result
//! words plus a reserved error word). Both phases live in the same storage,
//! a [`Message`], and a [`Block`] pads a `Message` with a byte buffer so
//! that the whole structure fills exactly one memory page.

use crate::register::Register;
use vstd::prelude::*;

verus! {

/// A request: the minimal register context the guest hands to the host to
/// have a call serviced, e.g. a proxied system call.
#[derive(Clone, Copy, PartialEq, Eq, Debug)]
pub struct Request {
    /// The operation selector for the request, e.g. a syscall number.
    pub num: Register,

    /// The argument registers. At most 7 arguments can be passed.
    pub arg: [Register; 7],
}

impl Request {
    /// Build a request from an operation selector and a slice of argument
    /// words.
    ///
    /// Missing trailing arguments are zero-filled; arguments past the
    /// seventh are silently dropped, never rejected.
    pub fn new(num: Register, arg: &[Register]) -> (r: Self)
        ensures
            r.num == num,
            r.arg@.len() == 7,
            forall|i: int|
                0 <= i < 7 ==> (#[trigger] r.arg@[i])@ == (if i < arg@.len() {
                    arg@[i]@
                } else {
                    0
                }),
    {
        Request {
            num,
            arg: [
                arg_or_zero(arg, 0),
                arg_or_zero(arg, 1),
                arg_or_zero(arg, 2),
                arg_or_zero(arg, 3),
                arg_or_zero(arg, 4),
                arg_or_zero(arg, 5),
                arg_or_zero(arg, 6),
            ],
        }
    }
}

/// A reply: the minimal register context the host hands back once a request
/// has been serviced, e.g. the return value of a proxied system call.
///
/// Most supported architectures collapse success and failure into the first
/// result word, reserving the values just below `usize::MAX` for negated
/// error codes; architectures that signal errors through a condition flag
/// instead would use the reserved `err` word with a different decode rule.
/// The built-in `Result` type cannot cross the boundary because its memory
/// layout is undefined, so this fixed layout plus the two conversions below
/// stand in for it.
///
/// The view of a `Reply` is the triple of words
/// `(ret[0], ret[1], err)`.
#[derive(Clone, Copy, PartialEq, Eq, Debug)]
pub struct Reply {
    ret: [Register; 2],
    err: Register,
}

impl View for Reply {
    type V = (usize, usize, usize);

    closed spec fn view(&self) -> (usize, usize, usize) {
        (self.ret@[0]@, self.ret@[1]@, self.err@)
    }
}

/// Does the word `w`, read from the first result register, fall in the
/// sentinel band near `usize::MAX` that is reserved for negated error codes?
pub open spec fn is_error_word(w: usize) -> bool {
    w > usize::MAX - 4095
}

/// The word that encodes the error code `e`: the two's-complement image of
/// `-e` in a register, so positive codes land in the sentinel band.
pub open spec fn errno_word(e: i32) -> usize {
    if e <= 0 {
        (-(e as int)) as usize
    } else {
        (usize::MAX - e + 1) as usize
    }
}

/// The reply words produced for the successful result `(r0, r1)`: both
/// result words verbatim, error word zeroed.
pub open spec fn encode_ok(r0: usize, r1: usize) -> (usize, usize, usize) {
    (r0, r1, 0)
}

/// The reply words produced for the error code `e`: its encoding word in
/// the first result register, everything else zeroed.
pub open spec fn encode_err(e: i32) -> (usize, usize, usize) {
    (errno_word(e), 0, 0)
}

/// The reply words produced for an entire result value.
pub open spec fn encode_result(v: Result<(usize, usize), i32>) -> (usize, usize, usize) {
    match v {
        Ok(p) => encode_ok(p.0, p.1),
        Err(e) => encode_err(e),
    }
}

/// The result read back out of the reply words `v`: an error code whenever
/// the first result word falls in the sentinel band, and the two result
/// words verbatim otherwise.
pub open spec fn decode_reply(v: (usize, usize, usize)) -> Result<(usize, usize), i32> {
    if is_error_word(v.0) {
        Err((usize::MAX - v.0 + 1) as i32)
    } else {
        Ok((v.0, v.1))
    }
}

/// The words a result value is made of: its payload registers unwrapped, so
/// that reply contracts can relate `Result` values to reply storage.
pub open spec fn result_words(res: Result<[Register; 2], i32>) -> Result<(usize, usize), i32> {
    match res {
        Ok(v) => Ok((v@[0]@, v@[1]@)),
        Err(e) => Err(e),
    }
}

impl Reply {
    /// Assemble a reply from its three raw words, as the host does when it
    /// writes an outcome back into shared storage.
    pub fn new(ret0: Register, ret1: Register, err: Register) -> (r: Self)
        ensures
            r@ == (ret0@, ret1@, err@),
    {
        Reply { ret: [ret0, ret1], err }
    }

    /// Encode a result into reply form: a success carries its two result
    /// words verbatim with the error word zeroed, a failure carries the
    /// negated error code as an unsigned word in the first result register.
    ///
    /// `i32::MIN` has no negation of its own width and is not a code any
    /// supported host emits, so it is excluded.
    pub fn from_result(value: Result<[Register; 2], i32>) -> (r: Self)
        requires
            value matches Err(e) ==> e != i32::MIN,
        ensures
            r@ == encode_result(result_words(value)),
    {
        match value {
            Ok(val) => Reply { ret: val, err: Register::default() },
            Err(e) => {
                let word: usize = if e > 0 {
                    usize::MAX - (e as usize) + 1
                } else {
                    (-e) as usize
                };
                Reply {
                    ret: [Register::new(word), Register::default()],
                    err: Register::default(),
                }
            },
        }
    }

    /// The three raw words of the reply, in storage order.
    pub fn into_words(self) -> (v: (usize, usize, usize))
        ensures
            v == self@,
    {
        (self.ret[0].value(), self.ret[1].value(), self.err.value())
    }

    /// Decode a reply: a first result word in the sentinel band is a negated
    /// error code and yields the failure it encodes, any other value yields
    /// both result words as a success.
    pub fn into_result(self) -> (res: Result<[Register; 2], i32>)
        ensures
            result_words(res) == decode_reply(self@),
    {
        let reg: usize = self.ret[0].value();
        if reg > usize::MAX - 4095 {
            let code: usize = usize::MAX - reg + 1;
            Err(code as i32)
        } else {
            Ok(self.ret)
        }
    }
}

/// A message: one request or one reply, in the same storage.
///
/// Only one phase is meaningful at a time and nothing in the storage says
/// which: there is no room for a discriminant without growing past the
/// request's eight words and breaking the page-size invariant. The storage
/// is therefore kept as eight raw words with one typed accessor per phase,
/// and the caller must track externally whether the request or the reply
/// view is the live one. Reading the wrong phase is a protocol violation
/// that cannot be detected here; the accessor contracts below say exactly
/// which words each view reads, nothing more.
///
/// The request occupies all eight words; the reply overlays the first
/// three, so writing a reply leaves the last five request words behind.
///
/// The view of a `Message` is the sequence of its eight words.
#[derive(Clone, Copy)]
pub struct Message {
    words: [usize; 8],
}

impl View for Message {
    type V = Seq<usize>;

    closed spec fn view(&self) -> Seq<usize> {
        self.words@
    }
}

impl Message {
    /// An idle message: all eight words zero.
    pub fn new() -> (m: Self)
        ensures
            m@.len() == 8,
            forall|i: int| 0 <= i < 8 ==> m@[i] == 0,
    {
        Message { words: [0, 0, 0, 0, 0, 0, 0, 0] }
    }

    /// Write a request into the storage, making the request view the live
    /// one: the selector lands in the first word, the seven arguments in
    /// the words after it.
    pub fn set_request(&mut self, req: Request)
        ensures
            final(self)@.len() == 8,
            final(self)@[0] == req.num@,
            final(self)@[1] == req.arg@[0]@,
            final(self)@[2] == req.arg@[1]@,
            final(self)@[3] == req.arg@[2]@,
            final(self)@[4] == req.arg@[3]@,
            final(self)@[5] == req.arg@[4]@,
            final(self)@[6] == req.arg@[5]@,
            final(self)@[7] == req.arg@[6]@,
    {
        self.words = [
            req.num.value(),
            req.arg[0].value(),
            req.arg[1].value(),
            req.arg[2].value(),
            req.arg[3].value(),
            req.arg[4].value(),
            req.arg[5].value(),
            req.arg[6].value(),
        ];
    }

    /// Read the storage as a request. Only meaningful while the request
    /// phase is live.
    pub fn request(&self) -> (r: Request)
        ensures
            r.num@ == self@[0],
            r.arg@.len() == 7,
            forall|i: int| 0 <= i < 7 ==> (#[trigger] r.arg@[i])@ == self@[i + 1],
    {
        Request {
            num: Register::new(self.words[0]),
            arg: [
                Register::new(self.words[1]),
                Register::new(self.words[2]),
                Register::new(self.words[3]),
                Register::new(self.words[4]),
                Register::new(self.words[5]),
                Register::new(self.words[6]),
                Register::new(self.words[7]),
            ],
        }
    }

    /// Write a reply into the storage, making the reply view the live one:
    /// only the first three words are overwritten, exactly as the host
    /// overlays a reply on the request it consumed.
    pub fn set_reply(&mut self, rep: Reply)
        ensures
            final(self)@.len() == 8,
            final(self)@[0] == rep@.0,
            final(self)@[1] == rep@.1,
            final(self)@[2] == rep@.2,
            forall|i: int| 3 <= i < 8 ==> final(self)@[i] == old(self)@[i],
    {
        let v = rep.into_words();
        self.words[0] = v.0;
        self.words[1] = v.1;
        self.words[2] = v.2;
    }

    /// Read the storage as a reply: the first three words. Only meaningful
    /// while the reply phase is live.
    pub fn reply(&self) -> (r: Reply)
        ensures
            r@ == (self@[0], self@[1], self@[2]),
    {
        Reply::new(
            Register::new(self.words[0]),
            Register::new(self.words[1]),
            Register::new(self.words[2]),
        )
    }
}

/// The size in bytes of one native memory page, the unit of shared storage
/// the host is willing to map: every supported target uses 4 KiB pages.
pub const PAGE_SIZE: usize = 4096;

/// The size in bytes of one register-width word on the supported targets.
pub const WORD_SIZE: usize = 8;

/// The size in bytes of a [`Message`]: eight register-width words.
pub const MESSAGE_SIZE: usize = 8 * WORD_SIZE;

/// The capacity in bytes of [`Block::buf`]: whatever is left of one page
/// once its [`Message`] has been laid down. Computed from the page and
/// message sizes, never hardcoded, so the page-size invariant survives a
/// change of either operand.
pub const BUF_CAPACITY: usize = PAGE_SIZE - MESSAGE_SIZE;

/// A block: the page-sized unit of storage shared between guest and host.
///
/// Besides the register contexts of its [`Message`], a block carries a byte
/// buffer for any bulk data a request or reply needs, e.g. the bytes a
/// proxied `write` call must hand to the host. The guest copies such data
/// into `buf` and points the message's argument registers at it. The buffer
/// is sized so the whole block occupies exactly one page — see
/// [`Block::buf_capacity`].
#[derive(Clone, Copy)]
pub struct Block {
    /// The register contexts for this message; either a request or a reply.
    pub msg: Message,

    /// The bulk-data buffer that shares the block's page with `msg`, and is
    /// therefore smaller than a page by the message's size.
    pub buf: [u8; BUF_CAPACITY],
}

impl Block {
    /// An idle block: message and buffer all zero.
    pub fn new() -> (b: Self)
        ensures
            b.msg@.len() == 8,
            forall|i: int| 0 <= i < 8 ==> b.msg@[i] == 0,
            b.buf@.len() == BUF_CAPACITY,
            forall|i: int| 0 <= i < b.buf@.len() ==> b.buf@[i] == 0,
    {
        Block { msg: Message::new(), buf: [0u8; BUF_CAPACITY] }
    }

    /// The capacity of [`Block::buf`].
    ///
    /// Together the buffer and the message fill one page exactly; this
    /// partition is the structural invariant that lets the host map a
    /// block as a single page.
    pub fn buf_capacity() -> (n: usize)
        ensures
            n == BUF_CAPACITY,
            n + MESSAGE_SIZE == PAGE_SIZE,
    {
        PAGE_SIZE - MESSAGE_SIZE
    }
}

/// Law: encoding a successful result and decoding it again gives back both
/// result words exactly, provided the first one does not itself lie in the
/// sentinel band. A first word in the band is indistinguishable from an
/// encoded error — the known ambiguity of the value-based convention — so
/// such results are outside the round trip.
pub proof fn lemma_ok_round_trip(r0: usize, r1: usize)
    requires
        !is_error_word(r0),
    ensures
        decode_reply(encode_ok(r0, r1)) == Ok::<(usize, usize), i32>((r0, r1)),
{
}

/// Law: encoding an error code and decoding it again gives back the exact
/// code, for every code in the supported band — those whose negation fills
/// the top 4095 register values. Codes outside it (zero, negatives, and
/// anything above 4095) encode to words outside the sentinel band and
/// decode as successes instead.
pub proof fn lemma_err_round_trip(e: i32)
    requires
        1 <= e <= 4095,
    ensures
        decode_reply(encode_err(e)) == Err::<(usize, usize), i32>(e),
{
}

/// The argument at position `i`, or the zero word when the caller supplied
/// fewer than `i + 1` arguments.
fn arg_or_zero(arg: &[Register], i: usize) -> (r: Register)
    ensures
        r@ == (if i < arg@.len() {
            arg@[i as int]@
        } else {
            0
        }),
{
    if i < arg.len() {
        arg[i]
    } else {
        Register::default()
    }
}

} // verus!
