use vstd::prelude::*;

verus! {

/// How a padding scheme treats a message whose length is a multiple of the
/// block size, and whether it may pad at all.
#[derive(Clone, Copy, Debug, PartialEq, Eq, Structural)]
pub enum PadType {
    /// Padding is always appended, also to a message of whole blocks.
    Reversible,
    /// Padding is appended only to a message that ends in a partial block.
    Ambiguous,
    /// No padding: the message must be made of whole blocks.
    NoPadding,
}

/// The padding schemes of `block_padding` that a tail block can be padded with.
#[derive(Clone, Copy, Debug, PartialEq, Eq, Structural)]
pub enum PaddingScheme {
    ZeroPadding,
    Pkcs7,
    Iso10126,
    AnsiX923,
    Iso7816,
    NoPadding,
}

/// The byte that `scheme` writes at index `i` of a block of `len` bytes whose
/// message ends at `pos` (`pos <= i < len`).
pub open spec fn pad_byte(scheme: PaddingScheme, len: nat, pos: nat, i: nat) -> u8 {
    match scheme {
        PaddingScheme::Pkcs7 | PaddingScheme::Iso10126 => (len - pos) as u8,
        PaddingScheme::AnsiX923 => if i + 1 == len { (len - pos) as u8 } else { 0u8 },
        PaddingScheme::Iso7816 => if i == pos { 0x80u8 } else { 0u8 },
        _ => 0u8,
    }
}

/// `block` padded by `scheme` after its first `pos` bytes.
pub open spec fn padded(scheme: PaddingScheme, block: Seq<u8>, pos: nat) -> Seq<u8> {
    if scheme == PaddingScheme::NoPadding {
        block
    } else {
        Seq::new(
            block.len(),
            |i: int| if i < pos { block[i] } else { pad_byte(scheme, block.len(), pos, i as nat) },
        )
    }
}

impl PaddingScheme {
    pub open spec fn spec_pad_type(self) -> PadType {
        match self {
            PaddingScheme::ZeroPadding => PadType::Ambiguous,
            PaddingScheme::NoPadding => PadType::NoPadding,
            _ => PadType::Reversible,
        }
    }

    /// Whether the scheme can pad a block of `block_size` bytes: the schemes
    /// that store the padding length in a byte need blocks of at most 255 bytes.
    pub open spec fn supports_block_size(self, block_size: nat) -> bool {
        match self {
            PaddingScheme::Pkcs7 | PaddingScheme::Iso10126 | PaddingScheme::AnsiX923 => block_size
                <= 255,
            _ => true,
        }
    }

    /// The category of the scheme.
    #[verifier::when_used_as_spec(spec_pad_type)]
    pub fn pad_type(self) -> (r: PadType)
        ensures
            r == self.spec_pad_type(),
    {
        match self {
            PaddingScheme::ZeroPadding => PadType::Ambiguous,
            PaddingScheme::NoPadding => PadType::NoPadding,
            _ => PadType::Reversible,
        }
    }

    /// Writes the padding into `block`, whose message ends at `pos`.
    pub fn pad(self, block: &mut [u8], pos: usize)
        requires
            pos < old(block)@.len(),
            self.supports_block_size(old(block)@.len()),
        ensures
            final(block)@ == padded(self, old(block)@, pos as nat),
    {
        match self {
            PaddingScheme::ZeroPadding => pad_zero(block, pos),
            PaddingScheme::Pkcs7 => pad_pkcs7(block, pos),
            PaddingScheme::Iso10126 => pad_iso10126(block, pos),
            PaddingScheme::AnsiX923 => pad_ansi_x923(block, pos),
            PaddingScheme::Iso7816 => pad_iso7816(block, pos),
            PaddingScheme::NoPadding => {},
        }
    }
}

/// Relies on `ZeroPadding::raw_pad` of block_padding: it fills the bytes from
/// `pos` on with zeros, and panics only where `pos` exceeds the length.
#[verifier::external_body]
fn pad_zero(block: &mut [u8], pos: usize)
    requires
        pos <= old(block)@.len(),
    ensures
        final(block)@ == padded(PaddingScheme::ZeroPadding, old(block)@, pos as nat),
{
    <block_padding::ZeroPadding as block_padding::Padding>::raw_pad(block, pos)
}

/// Relies on `Pkcs7::raw_pad` of block_padding: it fills the bytes from `pos`
/// on with the number of bytes added, and panics where the block is longer
/// than 255 bytes or `pos` is not below its length.
#[verifier::external_body]
fn pad_pkcs7(block: &mut [u8], pos: usize)
    requires
        old(block)@.len() <= 255,
        pos < old(block)@.len(),
    ensures
        final(block)@ == padded(PaddingScheme::Pkcs7, old(block)@, pos as nat),
{
    <block_padding::Pkcs7 as block_padding::Padding>::raw_pad(block, pos)
}

/// Relies on `Iso10126::raw_pad` of block_padding: it pads as PKCS#7 does
/// (its source says so), with the same panics.
#[verifier::external_body]
fn pad_iso10126(block: &mut [u8], pos: usize)
    requires
        old(block)@.len() <= 255,
        pos < old(block)@.len(),
    ensures
        final(block)@ == padded(PaddingScheme::Iso10126, old(block)@, pos as nat),
{
    <block_padding::Iso10126 as block_padding::Padding>::raw_pad(block, pos)
}

/// Relies on `AnsiX923::raw_pad` of block_padding: zeros from `pos` on and the
/// number of bytes added in the last byte; it panics where the block is longer
/// than 255 bytes or `pos` is not below its length.
#[verifier::external_body]
fn pad_ansi_x923(block: &mut [u8], pos: usize)
    requires
        old(block)@.len() <= 255,
        pos < old(block)@.len(),
    ensures
        final(block)@ == padded(PaddingScheme::AnsiX923, old(block)@, pos as nat),
{
    <block_padding::AnsiX923 as block_padding::Padding>::raw_pad(block, pos)
}

/// Relies on `Iso7816::raw_pad` of block_padding: `0x80` at `pos` and zeros
/// after it; it panics where `pos` is not below the length.
#[verifier::external_body]
fn pad_iso7816(block: &mut [u8], pos: usize)
    requires
        pos < old(block)@.len(),
    ensures
        final(block)@ == padded(PaddingScheme::Iso7816, old(block)@, pos as nat),
{
    <block_padding::Iso7816 as block_padding::Padding>::raw_pad(block, pos)
}

} // verus!
