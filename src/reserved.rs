use vstd::prelude::*;

use crate::errors::{OutIsTooSmallError, PadError};
use crate::inout_buf::InOutBuf;
use crate::padding::{padded, PadType, PaddingScheme};

verus! {

/// An input region and an output region at least as long. Either both are
/// the one buffer (`in_buf` is `None`: the input is the first `in_len`
/// elements of the output region) or they are two separate buffers.
pub struct InOutBufReserved<'inp, 'out, T> {
    pub in_buf: Option<&'inp [T]>,
    pub out_buf: &'out mut [T],
    pub in_len: usize,
}

impl<'inp, 'out, T> InOutBufReserved<'inp, 'out, T> {
    /// The output region is at least as long as the input region, and a
    /// separate input buffer is exactly `in_len` long.
    pub open spec fn wf(&self) -> bool {
        &&& self.in_len <= self.out_buf@.len()
        &&& match self.in_buf {
            Some(b) => b@.len() == self.in_len,
            None => true,
        }
    }

    /// What the output region holds now.
    pub open spec fn out_view(&self) -> Seq<T> {
        self.out_buf@
    }

    /// What the input region holds now.
    pub open spec fn in_view(&self) -> Seq<T> {
        match self.in_buf {
            Some(b) => b@,
            None => self.out_buf@.subrange(0, self.in_len as int),
        }
    }

    /// Builds a view over two separate buffers.
    pub fn from_slices(in_buf: &'inp [T], out_buf: &'out mut [T]) -> (r: Result<
        Self,
        OutIsTooSmallError,
    >)
        ensures
            r is Ok <==> in_buf@.len() <= old(out_buf)@.len(),
            r matches Ok(v) ==> {
                &&& v.wf()
                &&& v.in_buf == Some(in_buf)
                &&& v.in_len == in_buf@.len()
                &&& v.out_buf@ == old(out_buf)@
                &&& final(out_buf)@ == final(v.out_buf)@
            },
            r is Err ==> final(out_buf)@ == old(out_buf)@,
    {
        if in_buf.len() > out_buf.len() {
            return Err(OutIsTooSmallError);
        }
        let in_len = in_buf.len();
        Ok(InOutBufReserved { in_buf: Some(in_buf), out_buf, in_len })
    }

    /// Builds a view from its parts, unchecked: the caller certifies that the
    /// output region is at least `in_len` long and that a separate input
    /// region is exactly `in_len` long.
    pub fn from_raw(in_buf: Option<&'inp [T]>, out_buf: &'out mut [T], in_len: usize) -> (r: Self)
        requires
            in_len <= old(out_buf)@.len(),
            in_buf matches Some(b) ==> b@.len() == in_len,
        ensures
            r.wf(),
            r.in_buf == in_buf,
            r.in_len == in_len,
            r.out_buf@ == old(out_buf)@,
            final(out_buf)@ == final(r.out_buf)@,
    {
        InOutBufReserved { in_buf, out_buf, in_len }
    }

    /// The input region, separate or not, and the output region.
    pub fn into_raw(self) -> (r: (Option<&'inp [T]>, &'out mut [T]))
        ensures
            r.0 == self.in_buf,
            r.1@ == old(self.out_buf)@,
            final(r.1)@ == final(self.out_buf)@,
    {
        (self.in_buf, self.out_buf)
    }

    /// Length of the input region.
    pub fn get_in_len(&self) -> (r: usize)
        ensures
            r == self.in_len,
    {
        self.in_len
    }

    /// Length of the output region.
    pub fn get_out_len(&self) -> (r: usize)
        ensures
            r == old(self.out_buf)@.len(),
    {
        self.out_buf.len()
    }

    /// Splits the view into an equal-length view over the first `in_len`
    /// elements of each region and the reserved rest of the output region.
    pub fn split_reserved(&mut self) -> (r: (InOutBuf<'_, '_, T>, &mut [T]))
        requires
            old(self).wf(),
        ensures
            r.0.wf(),
            r.0.in_buf is None <==> old(self).in_buf is None,
            r.0.in_view() == old(self).in_view(),
            r.0.out_buf@ == old(self).out_buf@.subrange(0, old(self).in_len as int),
            r.1@ == old(self).out_buf@.subrange(
                old(self).in_len as int,
                old(self).out_buf@.len() as int,
            ),
            final(self).in_buf == old(self).in_buf,
            final(self).in_len == old(self).in_len,
            final(self).out_buf@ == final(r.0.out_buf)@ + final(r.1)@,
    {
        let in_len = self.in_len;
        let in_buf = self.in_buf;
        let (head, tail) = self.out_buf.split_at_mut(in_len);
        let body = InOutBuf { in_buf, out_buf: head };
        (body, tail)
    }

    /// The input region.
    pub fn get_in(&self) -> (r: &[T])
        requires
            self.wf(),
        ensures
            r@ == self.in_view(),
    {
        match self.in_buf {
            Some(b) => b,
            None => {
                let out: &[T] = &*self.out_buf;
                out.split_at(self.in_len).0
            },
        }
    }

    /// The output region, borrowed.
    pub fn get_out(&mut self) -> (r: &mut [T])
        ensures
            r@ == old(self).out_buf@,
            final(self).in_buf == old(self).in_buf,
            final(self).in_len == old(self).in_len,
            final(self).out_buf@ == final(r)@,
    {
        &mut *self.out_buf
    }

    /// Consumes the view and gives back the output region.
    pub fn into_out(self) -> (r: &'out mut [T])
        ensures
            r@ == old(self.out_buf)@,
            final(r)@ == final(self.out_buf)@,
    {
        self.out_buf
    }
}

impl<'a, T> InOutBufReserved<'a, 'a, T> {
    /// Builds a view that uses one buffer as both regions: the input is its
    /// first `msg_len` elements, the output the whole buffer.
    pub fn from_mut_slice(buf: &'a mut [T], msg_len: usize) -> (r: Result<Self, OutIsTooSmallError>)
        ensures
            r is Ok <==> msg_len <= old(buf)@.len(),
            r matches Ok(v) ==> {
                &&& v.wf()
                &&& v.in_buf is None
                &&& v.in_len == msg_len
                &&& v.out_buf@ == old(buf)@
                &&& final(buf)@ == final(v.out_buf)@
            },
            r is Err ==> final(buf)@ == old(buf)@,
    {
        if msg_len > buf.len() {
            return Err(OutIsTooSmallError);
        }
        Ok(InOutBufReserved { in_buf: None, out_buf: buf, in_len: msg_len })
    }
}

/// Whether the padded view has a tail block (`Some(true)`), has none
/// (`Some(false)`), or cannot be built (`None`), for a message of `in_len`
/// bytes, an output region of `out_len` bytes and blocks of `block_size` bytes.
pub open spec fn padded_layout(kind: PadType, in_len: nat, out_len: nat, block_size: nat) -> Option<
    bool,
> {
    let tail_len = in_len % block_size;
    let whole = (in_len / block_size) * block_size;
    let tail = match kind {
        PadType::NoPadding => false,
        PadType::Ambiguous => tail_len != 0,
        PadType::Reversible => true,
    };
    if kind == PadType::NoPadding && tail_len != 0 {
        None
    } else if tail && whole + block_size > out_len {
        None
    } else {
        Some(tail)
    }
}

/// The bytes of `msg` from `start` on, followed by zeros up to `block_size`.
pub open spec fn tail_block_of(msg: Seq<u8>, start: nat, block_size: nat) -> Seq<u8> {
    msg.subrange(start as int, msg.len() as int) + Seq::new(
        (block_size - (msg.len() - start)) as nat,
        |i: int| 0u8,
    )
}

impl<'inp, 'out> InOutBufReserved<'inp, 'out, u8> {
    /// Splits the view into the whole blocks of `block_size` bytes that the
    /// input holds, and a tail block made of the rest of the input followed
    /// by the padding of `padding`, where the scheme calls for one.
    pub fn into_padded_blocks(self, padding: PaddingScheme, block_size: usize) -> (r: Result<
        PaddedInOutBuf<'inp, 'out>,
        PadError,
    >)
        requires
            self.wf(),
            block_size > 0,
            padding.supports_block_size(block_size as nat),
        ensures
            r is Ok <==> padded_layout(
                padding.pad_type(),
                self.in_len as nat,
                old(self.out_buf)@.len(),
                block_size as nat,
            ) is Some,
            r matches Ok(p) ==> {
                let whole = (self.in_len / block_size) * block_size;
                &&& p.wf()
                &&& p.block_size == block_size
                &&& p.blocks_len == self.in_len / block_size
                &&& Some(p.has_tail) == padded_layout(
                    padding.pad_type(),
                    self.in_len as nat,
                    old(self.out_buf)@.len(),
                    block_size as nat,
                )
                &&& (p.in_buf is None <==> self.in_buf is None)
                &&& p.blocks_in_view() == self.in_view().subrange(0, whole as int)
                &&& p.out_buf@ == old(self.out_buf)@
                &&& final(p.out_buf)@ == final(self.out_buf)@
                &&& p.has_tail ==> p.tail_in@ == padded(
                    padding,
                    tail_block_of(self.in_view(), whole as nat, block_size as nat),
                    (self.in_len % block_size) as nat,
                )
            },
            r is Err ==> final(self.out_buf)@ == old(self.out_buf)@,
    {
        let bs = block_size;
        let in_len = self.in_len;
        let out_len = self.out_buf.len();
        let blocks_len = in_len / bs;
        proof {
            assert(blocks_len * bs <= in_len && in_len - blocks_len * bs == in_len % bs) by (nonlinear_arith)
                requires
                    blocks_len == in_len / bs,
                    bs > 0,
            ;
            assert(in_len % bs < bs) by (nonlinear_arith)
                requires
                    bs > 0,
            ;
        }
        let blen = blocks_len * bs;
        let tail_len = in_len - blen;
        let has_tail = match padding.pad_type() {
            PadType::NoPadding => {
                if tail_len != 0 {
                    return Err(PadError);
                }
                false
            },
            PadType::Ambiguous => tail_len != 0,
            PadType::Reversible => true,
        };
        if has_tail && bs > out_len - blen {
            return Err(PadError);
        }
        let msg = self.get_in();
        let mut tail_in: Vec<u8> = Vec::new();
        let mut i: usize = 0;
        while i < bs
            invariant
                i <= bs,
                blen + tail_len == in_len,
                msg@.len() == in_len,
                tail_in@.len() == i,
                forall|j: int|
                    0 <= j < i ==> tail_in@[j] == (if j < tail_len {
                        msg@[blen + j]
                    } else {
                        0u8
                    }),
            decreases bs - i,
        {
            if i < tail_len {
                tail_in.push(msg[blen + i]);
            } else {
                tail_in.push(0u8);
            }
            i = i + 1;
        }
        assert(tail_in@ == tail_block_of(msg@, blen as nat, bs as nat));
        if has_tail {
            padding.pad(tail_in.as_mut_slice(), tail_len);
        }
        let in_buf = match self.in_buf {
            Some(b) => Some(b.split_at(blen).0),
            None => None,
        };
        Ok(
            PaddedInOutBuf {
                in_buf,
                out_buf: self.out_buf,
                block_size: bs,
                blocks_len,
                tail_in,
                has_tail,
            },
        )
    }
}

/// The whole blocks of a padded message and its optional tail block. The
/// blocks' output is the first `blocks_len * block_size` bytes of `out_buf`,
/// and their input is `in_buf`, or the same bytes of `out_buf` where `in_buf`
/// is `None`. Where `has_tail` holds, the tail block's input is `tail_in`, a
/// block of the view's own, and its output the block of `out_buf` that
/// follows the whole blocks.
pub struct PaddedInOutBuf<'inp, 'out> {
    pub in_buf: Option<&'inp [u8]>,
    pub out_buf: &'out mut [u8],
    pub block_size: usize,
    pub blocks_len: usize,
    pub tail_in: Vec<u8>,
    pub has_tail: bool,
}

impl<'inp, 'out> PaddedInOutBuf<'inp, 'out> {
    /// What the output region holds now.
    pub open spec fn out_view(&self) -> Seq<u8> {
        self.out_buf@
    }

    /// Number of bytes in the whole blocks.
    pub open spec fn blocks_bytes(&self) -> int {
        self.blocks_len * self.block_size
    }

    /// Number of bytes that the view produces: the whole blocks and the tail block.
    pub open spec fn produced_len(&self) -> int {
        if self.has_tail {
            self.block_size * (self.blocks_len + 1)
        } else {
            self.block_size * self.blocks_len
        }
    }

    pub open spec fn wf(&self) -> bool {
        &&& self.block_size > 0
        &&& self.blocks_bytes() + (if self.has_tail {
            self.block_size as int
        } else {
            0
        }) <= self.out_buf@.len()
        &&& self.out_buf@.len() <= usize::MAX
        &&& self.tail_in@.len() == self.block_size
        &&& match self.in_buf {
            Some(b) => b@.len() == self.blocks_bytes(),
            None => true,
        }
    }

    /// The whole blocks, as an equal-length view over their bytes.
    pub fn get_blocks(&mut self) -> (r: InOutBuf<'_, '_, u8>)
        requires
            old(self).wf(),
        ensures
            r.wf(),
            r.in_buf is None <==> old(self).in_buf is None,
            r.in_view() == old(self).blocks_in_view(),
            r.out_buf@ == old(self).out_buf@.subrange(0, old(self).blocks_bytes() as int),
            final(self).in_buf == old(self).in_buf,
            final(self).block_size == old(self).block_size,
            final(self).blocks_len == old(self).blocks_len,
            final(self).tail_in == old(self).tail_in,
            final(self).has_tail == old(self).has_tail,
            final(self).out_buf@ == final(r.out_buf)@ + old(self).out_buf@.subrange(
                old(self).blocks_bytes() as int,
                old(self).out_buf@.len() as int,
            ),
    {
        proof {
            assert(self.blocks_len * self.block_size >= 0) by (nonlinear_arith);
        }
        let blen = self.blocks_len * self.block_size;
        let in_buf = self.in_buf;
        let (head, _rest) = self.out_buf.split_at_mut(blen);
        InOutBuf { in_buf, out_buf: head }
    }

    /// The padded tail block, as its input block and its output block, where
    /// the view has one.
    pub fn get_tail_block(&mut self) -> (r: Option<(&[u8], &mut [u8])>)
        requires
            old(self).wf(),
        ensures
            r is Some <==> old(self).has_tail,
            final(self).in_buf == old(self).in_buf,
            final(self).block_size == old(self).block_size,
            final(self).blocks_len == old(self).blocks_len,
            final(self).tail_in == old(self).tail_in,
            final(self).has_tail == old(self).has_tail,
            r is None ==> final(self).out_buf@ == old(self).out_buf@,
            r matches Some(t) ==> {
                let start = old(self).blocks_bytes() as int;
                let end = start + old(self).block_size;
                &&& t.0@ == old(self).tail_in@
                &&& t.1@ == old(self).out_buf@.subrange(start, end)
                &&& final(self).out_buf@ == old(self).out_buf@.subrange(0, start) + final(t.1)@
                    + old(self).out_buf@.subrange(end, old(self).out_buf@.len() as int)
            },
    {
        if !self.has_tail {
            return None;
        }
        proof {
            assert(self.blocks_len * self.block_size >= 0) by (nonlinear_arith);
        }
        let blen = self.blocks_len * self.block_size;
        let bs = self.block_size;
        let (_head, rest) = self.out_buf.split_at_mut(blen);
        let (block, _rest) = rest.split_at_mut(bs);
        Some((self.tail_in.as_slice(), block))
    }

    /// Consumes the view and gives back the bytes that it produced: the whole
    /// blocks and the tail block, where there is one.
    pub fn into_out(self) -> (r: &'out [u8])
        requires
            self.wf(),
        ensures
            r@.len() == self.produced_len(),
            r@ == old(self.out_buf)@.subrange(0, self.produced_len() as int),
            final(self.out_buf)@ == old(self.out_buf)@,
    {
        let bs = self.block_size;
        proof {
            let (bl, b) = (self.blocks_len as int, bs as int);
            assert(b * (bl + 1) == bl * b + b && b * bl == bl * b) by (nonlinear_arith);
            assert(bl * b >= 0 && bl <= bl * b) by (nonlinear_arith)
                requires
                    bl >= 0,
                    b >= 1,
            ;
        }
        let total = if self.has_tail {
            self.blocks_len + 1
        } else {
            self.blocks_len
        };
        let res_len = bs * total;
        let out: &'out [u8] = self.out_buf;
        out.split_at(res_len).0
    }

    /// What the input of the whole blocks holds now.
    pub open spec fn blocks_in_view(&self) -> Seq<u8> {
        match self.in_buf {
            Some(b) => b@,
            None => self.out_buf@.subrange(0, self.blocks_bytes() as int),
        }
    }
}

/// Whatever is written into the output region of a view is what the view
/// reads back: through its input region as well where input and output are
/// one buffer, while a separate input region keeps what it held.
pub proof fn lemma_output_round_trip<'inp, 'out, T>(
    before: InOutBufReserved<'inp, 'out, T>,
    after: InOutBufReserved<'inp, 'out, T>,
)
    requires
        before.wf(),
        after.in_buf == before.in_buf,
        after.in_len == before.in_len,
        after.out_view().len() == before.out_view().len(),
    ensures
        after.wf(),
        after.in_buf is None ==> after.in_view() == after.out_view().subrange(
            0,
            after.in_len as int,
        ),
        after.in_buf is Some ==> after.in_view() == before.in_view(),
{
}

/// Without padding, a view of whole blocks is built, with no tail block,
/// exactly where the message length is a multiple of the block size.
pub proof fn lemma_no_padding_layout(in_len: nat, out_len: nat, block_size: nat)
    requires
        block_size > 0,
        in_len <= out_len,
    ensures
        padded_layout(PadType::NoPadding, in_len, out_len, block_size) is Some <==> in_len
            % block_size == 0,
        padded_layout(PadType::NoPadding, in_len, out_len, block_size) is Some
            ==> padded_layout(PadType::NoPadding, in_len, out_len, block_size) == Some(false),
{
}

/// A reversible scheme always yields a tail block, and fails exactly where
/// the output region has no room for a block after the whole blocks.
pub proof fn lemma_reversible_layout(in_len: nat, out_len: nat, block_size: nat)
    requires
        block_size > 0,
        in_len <= out_len,
    ensures
        padded_layout(PadType::Reversible, in_len, out_len, block_size) == (if (in_len / block_size)
            * block_size + block_size <= out_len {
            Some(true)
        } else {
            None
        }),
{
}

/// An ambiguous scheme acts as no padding on a message of whole blocks, and
/// as a reversible scheme on any other message.
pub proof fn lemma_ambiguous_layout(in_len: nat, out_len: nat, block_size: nat)
    requires
        block_size > 0,
        in_len <= out_len,
    ensures
        in_len % block_size == 0 ==> padded_layout(PadType::Ambiguous, in_len, out_len, block_size)
            == padded_layout(PadType::NoPadding, in_len, out_len, block_size),
        in_len % block_size != 0 ==> padded_layout(PadType::Ambiguous, in_len, out_len, block_size)
            == padded_layout(PadType::Reversible, in_len, out_len, block_size),
{
}

/// The bytes that a padded view produces are the whole blocks, and one block
/// more where it has a tail block.
pub proof fn lemma_produced_len<'inp, 'out>(p: PaddedInOutBuf<'inp, 'out>)
    requires
        p.wf(),
    ensures
        !p.has_tail ==> p.produced_len() == p.block_size * p.blocks_len,
        p.has_tail ==> p.produced_len() == p.block_size * (p.blocks_len + 1),
        p.produced_len() <= p.out_view().len(),
{
    assert(p.block_size * (p.blocks_len + 1) == p.blocks_len * p.block_size + p.block_size)
        by (nonlinear_arith);
    assert(p.block_size * p.blocks_len == p.blocks_len * p.block_size) by (nonlinear_arith);
}

} // verus!
