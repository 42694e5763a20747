//! The typed image buffer: a width, a height and a flat sequence of pixel
//! elements, tagged with the element type and the colorspace.

use crate::color::Color;
use crate::ty::{
    element_bytes, element_of, le_decode, le_encode, lemma_bytes_round_trip,
    lemma_element_round_trip, lemma_le_value_bound, Type,
};
use core::marker::PhantomData;
use vstd::prelude::*;
use vstd::slice::slice_subrange;

verus! {

/// The error of data whose length is not what the shape asks for.
#[derive(Debug, Clone, Copy, PartialEq, Eq)]
pub struct ShapeMismatch;

/// The number of elements of an image of the given width and height in the
/// colorspace `C`.
pub open spec fn spec_elements<C: Color>(width: usize, height: usize) -> nat {
    (width * height * C::spec_channels()) as nat
}

/// The bytes of the elements `data`, one element after the other.
pub open spec fn spec_encode<T: Type>(data: Seq<T>) -> Seq<u8>
    decreases data.len(),
{
    if data.len() == 0 {
        Seq::empty()
    } else {
        spec_encode(data.drop_last()) + element_bytes(data.last())
    }
}

/// The elements that `bytes` hold, one after the other, for bytes that are a
/// whole number of elements.
pub open spec fn spec_decode<T: Type>(bytes: Seq<u8>) -> Seq<T>
    decreases bytes.len(),
{
    let n = T::spec_size();
    if n == 0 || bytes.len() < n {
        Seq::empty()
    } else {
        spec_decode::<T>(bytes.take(bytes.len() - n)).push(
            element_of::<T>(bytes.skip(bytes.len() - n)),
        )
    }
}

/// Elements take as many bytes as their number times the size of one.
pub proof fn lemma_encode_len<T: Type>(data: Seq<T>)
    ensures
        spec_encode(data).len() == data.len() * T::spec_size(),
    decreases data.len(),
{
    let n = T::spec_size();
    if data.len() > 0 {
        lemma_encode_len(data.drop_last());
        lemma_element_round_trip(data.last());
        let k = data.drop_last().len();
        assert((k + 1) * n == k * n + n) by (nonlinear_arith);
    } else {
        assert(0 * n == 0) by (nonlinear_arith);
    }
}

/// Decoding the bytes of elements gives the elements.
pub proof fn lemma_decode_encode<T: Type>(data: Seq<T>)
    ensures
        spec_decode::<T>(spec_encode(data)) == data,
    decreases data.len(),
{
    let n = T::spec_size();
    T::lemma_size();
    if data.len() > 0 {
        let front = spec_encode(data.drop_last());
        let last = element_bytes(data.last());
        let bytes = spec_encode(data);
        lemma_decode_encode(data.drop_last());
        lemma_element_round_trip(data.last());
        assert(bytes.take(bytes.len() - n) =~= front);
        assert(bytes.skip(bytes.len() - n) =~= last);
        assert(data.drop_last().push(data.last()) =~= data);
    } else {
        assert(spec_decode::<T>(spec_encode(data)) =~= data);
    }
}

/// Bytes that are a whole number of elements hold so many elements, and are
/// the bytes of the elements they hold.
pub proof fn lemma_encode_decode<T: Type>(bytes: Seq<u8>)
    requires
        bytes.len() % T::spec_size() == 0,
    ensures
        spec_decode::<T>(bytes).len() * T::spec_size() == bytes.len(),
        spec_encode(spec_decode::<T>(bytes)) == bytes,
    decreases bytes.len(),
{
    let n = T::spec_size();
    T::lemma_size();
    if bytes.len() < n {
        assert(bytes.len() == 0) by (nonlinear_arith)
            requires
                bytes.len() % n == 0,
                bytes.len() < n,
                n > 0,
        ;
        assert(0 * n == 0) by (nonlinear_arith);
        assert(spec_encode(spec_decode::<T>(bytes)) =~= bytes);
    } else {
        let l = bytes.len();
        let front = bytes.take(l - n);
        let last = bytes.skip(l - n);
        assert((l - n) % (n as int) == 0) by (nonlinear_arith)
            requires
                l % n == 0,
                l >= n,
                n > 0,
        ;
        lemma_encode_decode::<T>(front);
        lemma_bytes_round_trip::<T>(last);
        let elems = spec_decode::<T>(front);
        let k = elems.len();
        assert((k + 1) * n == k * n + n) by (nonlinear_arith);
        assert(elems.push(element_of::<T>(last)).drop_last() =~= elems);
        assert(front + last =~= bytes);
    }
}

/// A typed image buffer.
///
/// It holds `width * height * channels` elements, where `channels` is the
/// channel count of the colorspace `C`.
#[derive(Debug, PartialEq, Eq)]
pub struct ImageBuf<T: Type, C: Color> {
    width: usize,
    height: usize,
    data: Vec<T>,
    color: PhantomData<C>,
}

impl<T: Type, C: Color> ImageBuf<T, C> {
    #[verifier::type_invariant]
    spec fn well_formed(self) -> bool {
        self.data@.len() == spec_elements::<C>(self.width, self.height)
    }

    /// The width in pixels.
    pub closed spec fn spec_width(&self) -> usize {
        self.width
    }

    /// The height in pixels.
    pub closed spec fn spec_height(&self) -> usize {
        self.height
    }

    /// The elements, row by row, the channels of a pixel side by side.
    pub closed spec fn spec_data(&self) -> Seq<T> {
        self.data@
    }

    /// The width, the height and the channel count.
    pub open spec fn spec_shape(&self) -> (usize, usize, usize) {
        (self.spec_width(), self.spec_height(), C::spec_channels() as usize)
    }

    /// The raw bytes of the elements.
    pub open spec fn spec_buffer(&self) -> Seq<u8> {
        spec_encode(self.spec_data())
    }

    /// The number of elements that the shape asks for, if it fits a `usize`.
    fn elements(width: usize, height: usize) -> (r: Option<usize>)
        ensures
            match r {
                Some(n) => n == spec_elements::<C>(width, height),
                None => spec_elements::<C>(width, height) > usize::MAX,
            },
    {
        let channels = C::channels();
        match width.checked_mul(height) {
            Some(pixels) => pixels.checked_mul(channels),
            None => {
                assert(width * height * channels >= width * height) by (nonlinear_arith)
                    requires
                        channels >= 1,
                ;
                None
            },
        }
    }

    /// Whether `r` is what building an image of the given shape over `data`
    /// gives: the image of that width and height over those elements, where
    /// they are exactly `width * height * channels`, and `ShapeMismatch`
    /// where they are not.
    pub open spec fn spec_new(
        width: usize,
        height: usize,
        data: Seq<T>,
        r: Result<Self, ShapeMismatch>,
    ) -> bool {
        &&& r is Ok <==> data.len() == spec_elements::<C>(width, height)
        &&& r matches Ok(image) ==> image.spec_width() == width && image.spec_height() == height
            && image.spec_data() == data
    }

    /// Whether `r` is what building an image of the given shape from the
    /// raw bytes `bytes` gives: the image of that width and height over the
    /// elements that the bytes hold, where they are exactly the bytes of
    /// `width * height * channels` elements, and `ShapeMismatch` where they
    /// are not.
    pub open spec fn spec_from_bytes(
        width: usize,
        height: usize,
        bytes: Seq<u8>,
        r: Result<Self, ShapeMismatch>,
    ) -> bool {
        &&& r is Ok <==> bytes.len() == spec_elements::<C>(width, height) * T::spec_size()
        &&& r matches Ok(image) ==> image.spec_width() == width && image.spec_height() == height
            && image.spec_data() == spec_decode::<T>(bytes)
    }

    /// An image of the given shape over `data`, or `ShapeMismatch` where
    /// `data` does not hold exactly `width * height * channels` elements.
    pub fn new(width: usize, height: usize, data: Vec<T>) -> (r: Result<Self, ShapeMismatch>)
        ensures
            Self::spec_new(width, height, data@, r),
    {
        let len = data.len();
        match Self::elements(width, height) {
            Some(n) => {
                if len == n {
                    Ok(ImageBuf { width, height, data, color: PhantomData })
                } else {
                    Err(ShapeMismatch)
                }
            },
            None => Err(ShapeMismatch),
        }
    }

    /// The width in pixels.
    pub fn width(&self) -> (w: usize)
        ensures
            w == self.spec_width(),
    {
        self.width
    }

    /// The height in pixels.
    pub fn height(&self) -> (h: usize)
        ensures
            h == self.spec_height(),
    {
        self.height
    }

    /// The elements.
    pub fn data(&self) -> (d: &Vec<T>)
        ensures
            d@ == self.spec_data(),
            d@.len() == spec_elements::<C>(self.spec_width(), self.spec_height()),
    {
        proof {
            use_type_invariant(self);
        }
        &self.data
    }

    /// The width, the height and the channel count.
    pub fn shape(&self) -> (s: (usize, usize, usize))
        ensures
            s == self.spec_shape(),
            s.2 == C::spec_channels(),
            self.spec_data().len() == s.0 * s.1 * s.2,
    {
        proof {
            use_type_invariant(self);
        }
        (self.width, self.height, C::channels())
    }

    /// The raw bytes of the elements, one element after the other, each
    /// least significant byte first.
    pub fn buffer(&self) -> (b: Vec<u8>)
        ensures
            b@ == self.spec_buffer(),
            b@.len() == self.spec_data().len() * T::spec_size(),
    {
        let mut b: Vec<u8> = Vec::new();
        let size = T::size();
        let mut i: usize = 0;
        while i < self.data.len()
            invariant
                i <= self.data@.len(),
                size == T::spec_size(),
                b@ == spec_encode(self.data@.take(i as int)),
            decreases self.data@.len() - i,
        {
            proof {
                let next = self.data@.take(i + 1);
                assert(next.drop_last() =~= self.data@.take(i as int));
            }
            le_encode(self.data[i].bits(), size, &mut b);
            i = i + 1;
        }
        proof {
            assert(self.data@.take(i as int) =~= self.data@);
            lemma_encode_len(self.data@);
        }
        b
    }

    /// The image of the given shape whose raw bytes are `bytes`, or
    /// `ShapeMismatch` where `bytes` are not exactly the bytes of
    /// `width * height * channels` elements.
    pub fn from_bytes(width: usize, height: usize, bytes: &[u8]) -> (r: Result<
        Self,
        ShapeMismatch,
    >)
        ensures
            Self::spec_from_bytes(width, height, bytes@, r),
    {
        let size = T::size();
        let len = bytes.len();
        let ghost expected = spec_elements::<C>(width, height);
        if len % size != 0 {
            assert(len != expected * size) by (nonlinear_arith)
                requires
                    len % size != 0,
                    size > 0,
            ;
            return Err(ShapeMismatch);
        }
        let count = len / size;
        assert(count * size == len) by (nonlinear_arith)
            requires
                len % size == 0,
                size > 0,
                count == len / size,
        ;
        let same = match Self::elements(width, height) {
            Some(n) => n == count,
            None => false,
        };
        assert(same <==> expected == count);
        assert(expected == count <==> len == expected * size) by (nonlinear_arith)
            requires
                count * size == len,
                size > 0,
        ;
        if !same {
            return Err(ShapeMismatch);
        }
        let mut data: Vec<T> = Vec::new();
        let mut at: usize = 0;
        while at < len
            invariant
                at <= len == bytes@.len(),
                size == T::spec_size(),
                1 <= size <= 8,
                at % size == 0,
                len % size == 0,
                data@ == spec_decode::<T>(bytes@.take(at as int)),
                data@.len() * size == at,
            decreases len - at,
        {
            assert(at + size <= len) by (nonlinear_arith)
                requires
                    at < len,
                    at % size == 0,
                    len % size == 0,
                    size > 0,
            ;
            assert((at + size) % (size as int) == 0) by (nonlinear_arith)
                requires
                    at % size == 0,
                    size > 0,
            ;
            let chunk = slice_subrange(bytes, at, at + size);
            proof {
                let next = bytes@.take(at + size);
                assert(next.take(next.len() - size) =~= bytes@.take(at as int));
                assert(next.skip(next.len() - size) =~= chunk@);
                lemma_le_value_bound(chunk@);
                assert((data@.len() + 1) * size == data@.len() * size + size) by (nonlinear_arith);
            }
            data.push(T::of_bits(le_decode(chunk)));
            at = at + size;
        }
        assert(bytes@.take(at as int) =~= bytes@);
        assert(data@.len() == count) by (nonlinear_arith)
            requires
                data@.len() * size == len,
                count * size == len,
                size > 0,
        ;
        Ok(ImageBuf { width, height, data, color: PhantomData })
    }
}

/// An image built from a width, a height and exactly `width * height *
/// channels` elements reports that shape, and its raw bytes are as many as
/// its elements times the size of one.
pub proof fn lemma_built_image<T: Type, C: Color>(
    width: usize,
    height: usize,
    data: Seq<T>,
    r: Result<ImageBuf<T, C>, ShapeMismatch>,
)
    requires
        data.len() == spec_elements::<C>(width, height),
        ImageBuf::<T, C>::spec_new(width, height, data, r),
    ensures
        r is Ok,
        r->Ok_0.spec_shape() == (width, height, C::spec_channels() as usize),
        r->Ok_0.spec_shape().2 == C::spec_channels(),
        r->Ok_0.spec_buffer().len() == width * height * C::spec_channels() * T::spec_size(),
{
    lemma_encode_len(data);
    C::lemma_has_channels();
}

/// An image built from the raw bytes of an image, under the same width and
/// height, has the same elements: the bytes are those of exactly that shape,
/// and the elements they hold are the elements they were made from.
pub proof fn lemma_buffer_round_trip<T: Type, C: Color>(
    image: ImageBuf<T, C>,
    r: Result<ImageBuf<T, C>, ShapeMismatch>,
)
    requires
        image.spec_data().len() == spec_elements::<C>(image.spec_width(), image.spec_height()),
        ImageBuf::<T, C>::spec_from_bytes(
            image.spec_width(),
            image.spec_height(),
            image.spec_buffer(),
            r,
        ),
    ensures
        r is Ok,
        r->Ok_0.spec_shape() == image.spec_shape(),
        r->Ok_0.spec_data() == image.spec_data(),
{
    lemma_encode_len(image.spec_data());
    lemma_decode_encode(image.spec_data());
}

} // verus!
