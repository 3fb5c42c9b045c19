use vstd::prelude::*;

verus! {

/// An input region and an output region of equal length, which are either
/// the same buffer (`in_buf` is `None`: the input is read from the output
/// region) or two separate buffers.
pub struct InOutBuf<'inp, 'out, T> {
    pub in_buf: Option<&'inp [T]>,
    pub out_buf: &'out mut [T],
}

impl<'inp, 'out, T> InOutBuf<'inp, 'out, T> {
    pub open spec fn wf(&self) -> bool {
        match self.in_buf {
            Some(b) => b@.len() == self.out_buf@.len(),
            None => true,
        }
    }

    /// What the input region holds now.
    pub open spec fn in_view(&self) -> Seq<T> {
        match self.in_buf {
            Some(b) => b@,
            None => self.out_buf@,
        }
    }

    /// Length of both regions.
    pub fn len(&self) -> (r: usize)
        ensures
            r == old(self.out_buf)@.len(),
    {
        self.out_buf.len()
    }

    /// The input region.
    pub fn get_in(&self) -> (r: &[T])
        requires
            self.wf(),
        ensures
            r@ == self.in_view(),
    {
        match self.in_buf {
            Some(b) => b,
            None => &*self.out_buf,
        }
    }

    /// The output region, borrowed.
    pub fn get_out(&mut self) -> (r: &mut [T])
        ensures
            r@ == old(self).out_buf@,
            final(self).in_buf == old(self).in_buf,
            final(self).out_buf@ == final(r)@,
    {
        &mut *self.out_buf
    }

    /// Consumes the view and gives back the output region.
    pub fn into_out(self) -> (r: &'out mut [T])
        ensures
            r@ == old(self.out_buf)@,
            final(r)@ == (*final(self.out_buf))@,
    {
        self.out_buf
    }
}

} // verus!
