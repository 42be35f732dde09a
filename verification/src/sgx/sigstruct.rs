//! The enclave signing structure: a record of 1808 bytes in four parts, the
//! header, the key material, the body and the buffer.

use crate::bytes::{le_u16, le_u32, read_array, read_u16, read_u32, zero_array, zeros};
use crate::hex::{hex_line, prefixed_hex_line, push_hex_line, push_prefixed_hex_line};
use crate::sgx::attributes::Attributes;
use crate::sgx::length::{LengthMismatch, Section};
use crate::text::{
    binary_line, decimal, decimal_line, digits, label, push_binary_line, push_decimal,
    push_decimal_line, push_digits, push_label, push_word_line, word_line, Radix,
};
use vstd::prelude::*;
use vstd::slice::slice_subrange;
use vstd::string::*;

verus! {

/// The length of a signing structure.
pub const LENGTH_SIG_STRUCT: usize = 1808;

/// The module vendor that stands for Intel.
pub const VENDOR_INTEL: u32 = 0x8086;

/// Whether the type of a signing structure marks a debug build: its lowest
/// bit says so.
pub open spec fn is_debug_type(type_: u32) -> bool {
    type_ % 2 == 1
}

/// The word for the type of a signing structure.
pub open spec fn type_word(type_: u32) -> Seq<char> {
    if is_debug_type(type_) {
        "debug"@
    } else {
        "prod"@
    }
}

/// The word for a module vendor: Intel has a number of its own, every other
/// is an independent software vendor.
pub open spec fn vendor_word(module_vendor: u32) -> Seq<char> {
    if module_vendor == 0x8086 {
        "intel"@
    } else {
        "isv"@
    }
}

/// The year of a packed date: its low 16 bits.
pub open spec fn date_year(date: u32) -> nat {
    (date % 0x1_0000) as nat
}

/// The month of a packed date: the 8 bits above the year.
pub open spec fn date_month(date: u32) -> nat {
    ((date / 0x1_0000) % 0x100) as nat
}

/// The day of a packed date: its top 8 bits.
pub open spec fn date_day(date: u32) -> nat {
    (date / 0x100_0000) as nat
}

/// A packed date as year, month and day, the last two with two digits at
/// least.
pub open spec fn date_text(date: u32) -> Seq<char> {
    decimal(date_year(date)) + "-"@ + digits(date_month(date), 10, 2) + "-"@ + digits(
        date_day(date),
        10,
        2,
    )
}

/// The word for the type of a signing structure: `debug` where the lowest
/// bit is set, `prod` where it is not.
pub fn type_desc(type_: u32) -> (s: &'static str)
    ensures
        s@ == type_word(type_),
{
    if type_ % 2 == 1 {
        "debug"
    } else {
        "prod"
    }
}

/// The word for a module vendor: `intel` for 0x8086, `isv` for every other.
pub fn vendor_desc(module_vendor: u32) -> (s: &'static str)
    ensures
        s@ == vendor_word(module_vendor),
{
    if module_vendor == VENDOR_INTEL {
        "intel"
    } else {
        "isv"
    }
}

/// Appends a packed date as `yyyy-mm-dd`.
fn push_date(out: &mut String, date: u32)
    ensures
        final(out)@ == old(out)@ + date_text(date),
{
    let ghost before = out@;
    let year: u32 = date % 0x1_0000;
    let month: u32 = (date / 0x1_0000) % 0x100;
    let day: u32 = date / 0x100_0000;
    push_decimal(out, year as u64);
    out.append("-");
    push_digits(out, month as u64, Radix::Decimal, 2);
    out.append("-");
    push_digits(out, day as u64, Radix::Decimal, 2);
    assert(out@ =~= before + date_text(date));
}

/// The header of a signing structure.
#[derive(Clone, Copy, Debug)]
pub struct SigStructHeader {
    pub header: [u8; 12],
    pub type_: u32,
    pub module_vendor: u32,
    pub date: u32,
    pub header2: [u8; 16],
    pub hw_version: u32,
    pub reserved: [u8; 84],
}

/// What the header of a signing structure holds.
pub struct SigStructHeaderView {
    pub header: Seq<u8>,
    pub type_: u32,
    pub module_vendor: u32,
    pub date: u32,
    pub header2: Seq<u8>,
    pub hw_version: u32,
    pub reserved: Seq<u8>,
}

impl View for SigStructHeader {
    type V = SigStructHeaderView;

    open spec fn view(&self) -> SigStructHeaderView {
        SigStructHeaderView {
            header: self.header@,
            type_: self.type_,
            module_vendor: self.module_vendor,
            date: self.date,
            header2: self.header2@,
            hw_version: self.hw_version,
            reserved: self.reserved@,
        }
    }
}

impl SigStructHeaderView {
    /// The header whose every byte is zero.
    pub open spec fn zero() -> SigStructHeaderView {
        SigStructHeaderView {
            header: zeros(12),
            type_: 0,
            module_vendor: 0,
            date: 0,
            header2: zeros(16),
            hw_version: 0,
            reserved: zeros(84),
        }
    }

    /// The header that the 128 bytes of `b` encode.
    pub open spec fn parse(b: Seq<u8>) -> SigStructHeaderView {
        SigStructHeaderView {
            header: b.subrange(0, 12),
            type_: le_u32(b, 12),
            module_vendor: le_u32(b, 16),
            date: le_u32(b, 20),
            header2: b.subrange(24, 40),
            hw_version: le_u32(b, 40),
            reserved: b.subrange(44, 128),
        }
    }

    /// The header as text: one line for each field, names padded to 16
    /// bytes.
    pub open spec fn text(self) -> Seq<char> {
        hex_line("header", 16, self.header) + word_line("type", 16, type_word(self.type_))
            + word_line("module_vendor", 16, vendor_word(self.module_vendor)) + label(
            "date(yyyy-mm-dd)",
            16,
        ) + date_text(self.date) + "\n"@ + hex_line("header2", 16, self.header2) + label(
            "hw_version",
            16,
        ) + decimal(self.hw_version as nat) + "  # non-zero for Launch Enclaves; Otherwise 0"@
            + "\n"@ + hex_line("reserved", 16, self.reserved)
    }
}

impl SigStructHeader {
    /// Decodes the header from its 128 bytes.
    fn decode(b: &[u8]) -> (r: SigStructHeader)
        requires
            b.len() == 128,
        ensures
            r@ == SigStructHeaderView::parse(b@),
    {
        SigStructHeader {
            header: read_array::<12>(b, 0),
            type_: read_u32(b, 12),
            module_vendor: read_u32(b, 16),
            date: read_u32(b, 20),
            header2: read_array::<16>(b, 24),
            hw_version: read_u32(b, 40),
            reserved: read_array::<84>(b, 44),
        }
    }

    /// Renders the header.
    pub fn to_string(&self) -> (s: String)
        ensures
            s@ == self@.text(),
    {
        let mut out = String::new();
        push_hex_line(&mut out, "header", 16, self.header.as_slice());
        assert(out@ =~= hex_line("header", 16, self.header@));
        push_word_line(&mut out, "type", 16, type_desc(self.type_));
        push_word_line(&mut out, "module_vendor", 16, vendor_desc(self.module_vendor));
        push_label(&mut out, "date(yyyy-mm-dd)", 16);
        push_date(&mut out, self.date);
        out.append("\n");
        push_hex_line(&mut out, "header2", 16, self.header2.as_slice());
        push_label(&mut out, "hw_version", 16);
        push_decimal(&mut out, self.hw_version as u64);
        out.append("  # non-zero for Launch Enclaves; Otherwise 0");
        out.append("\n");
        push_hex_line(&mut out, "reserved", 16, self.reserved.as_slice());
        out
    }
}

impl Default for SigStructHeader {
    fn default() -> (r: SigStructHeader)
        ensures
            r@ == SigStructHeaderView::zero(),
    {
        SigStructHeader {
            header: zero_array::<12>(),
            type_: 0,
            module_vendor: 0,
            date: 0,
            header2: zero_array::<16>(),
            hw_version: 0,
            reserved: zero_array::<84>(),
        }
    }
}

/// The key material of a signing structure.
#[derive(Clone, Copy, Debug)]
pub struct SigStructKey {
    pub modulus: [u8; 384],
    pub exponent: [u8; 4],
    pub signature: [u8; 384],
}

/// What the key material of a signing structure holds.
pub struct SigStructKeyView {
    pub modulus: Seq<u8>,
    pub exponent: Seq<u8>,
    pub signature: Seq<u8>,
}

impl View for SigStructKey {
    type V = SigStructKeyView;

    open spec fn view(&self) -> SigStructKeyView {
        SigStructKeyView {
            modulus: self.modulus@,
            exponent: self.exponent@,
            signature: self.signature@,
        }
    }
}

impl SigStructKeyView {
    /// The key material whose every byte is zero.
    pub open spec fn zero() -> SigStructKeyView {
        SigStructKeyView { modulus: zeros(384), exponent: zeros(4), signature: zeros(384) }
    }

    /// The key material that the 772 bytes of `b` encode.
    pub open spec fn parse(b: Seq<u8>) -> SigStructKeyView {
        SigStructKeyView {
            modulus: b.subrange(0, 384),
            exponent: b.subrange(384, 388),
            signature: b.subrange(388, 772),
        }
    }

    /// The public exponent as a number: its four bytes are little-endian.
    pub open spec fn exponent_value(self) -> u32 {
        le_u32(self.exponent, 0)
    }

    /// The key material as text, names padded to 9 bytes; the exponent is
    /// shown as a number.
    pub open spec fn text(self) -> Seq<char> {
        hex_line("modulus", 9, self.modulus) + decimal_line(
            "exponent",
            9,
            self.exponent_value() as nat,
        ) + hex_line("signature", 9, self.signature)
    }
}

impl SigStructKey {
    /// Decodes the key material from its 772 bytes.
    fn decode(b: &[u8]) -> (r: SigStructKey)
        requires
            b.len() == 772,
        ensures
            r@ == SigStructKeyView::parse(b@),
    {
        SigStructKey {
            modulus: read_array::<384>(b, 0),
            exponent: read_array::<4>(b, 384),
            signature: read_array::<384>(b, 388),
        }
    }

    /// Renders the key material.
    pub fn to_string(&self) -> (s: String)
        ensures
            s@ == self@.text(),
    {
        let mut out = String::new();
        push_hex_line(&mut out, "modulus", 9, self.modulus.as_slice());
        assert(out@ =~= hex_line("modulus", 9, self.modulus@));
        let exponent: u32 = read_u32(self.exponent.as_slice(), 0);
        push_decimal_line(&mut out, "exponent", 9, exponent as u64);
        push_hex_line(&mut out, "signature", 9, self.signature.as_slice());
        out
    }
}

impl Default for SigStructKey {
    fn default() -> (r: SigStructKey)
        ensures
            r@ == SigStructKeyView::zero(),
    {
        SigStructKey {
            modulus: zero_array::<384>(),
            exponent: zero_array::<4>(),
            signature: zero_array::<384>(),
        }
    }
}

/// The body of a signing structure.
#[derive(Clone, Copy, Debug)]
pub struct SigStructBody {
    pub misc_select: u32,
    pub misc_mask: u32,
    pub reserved: [u8; 4],
    pub isv_family_id: [u8; 16],
    pub attributes: Attributes,
    pub attribute_mask: Attributes,
    pub enclave_hash: [u8; 32],
    pub reserved2: [u8; 16],
    pub isvext_prod_id: [u8; 16],
    pub isv_prod_id: u16,
    pub isv_svn: u16,
}

/// What the body of a signing structure holds.
pub struct SigStructBodyView {
    pub misc_select: u32,
    pub misc_mask: u32,
    pub reserved: Seq<u8>,
    pub isv_family_id: Seq<u8>,
    pub attributes: Attributes,
    pub attribute_mask: Attributes,
    pub enclave_hash: Seq<u8>,
    pub reserved2: Seq<u8>,
    pub isvext_prod_id: Seq<u8>,
    pub isv_prod_id: u16,
    pub isv_svn: u16,
}

impl View for SigStructBody {
    type V = SigStructBodyView;

    open spec fn view(&self) -> SigStructBodyView {
        SigStructBodyView {
            misc_select: self.misc_select,
            misc_mask: self.misc_mask,
            reserved: self.reserved@,
            isv_family_id: self.isv_family_id@,
            attributes: self.attributes,
            attribute_mask: self.attribute_mask,
            enclave_hash: self.enclave_hash@,
            reserved2: self.reserved2@,
            isvext_prod_id: self.isvext_prod_id@,
            isv_prod_id: self.isv_prod_id,
            isv_svn: self.isv_svn,
        }
    }
}

impl SigStructBodyView {
    /// The body whose every byte is zero.
    pub open spec fn zero() -> SigStructBodyView {
        SigStructBodyView {
            misc_select: 0,
            misc_mask: 0,
            reserved: zeros(4),
            isv_family_id: zeros(16),
            attributes: Attributes { flags: 0, xfrm: 0 },
            attribute_mask: Attributes { flags: 0, xfrm: 0 },
            enclave_hash: zeros(32),
            reserved2: zeros(16),
            isvext_prod_id: zeros(16),
            isv_prod_id: 0,
            isv_svn: 0,
        }
    }

    /// The body that the 128 bytes of `b` encode.
    pub open spec fn parse(b: Seq<u8>) -> SigStructBodyView {
        SigStructBodyView {
            misc_select: le_u32(b, 0),
            misc_mask: le_u32(b, 4),
            reserved: b.subrange(8, 12),
            isv_family_id: b.subrange(12, 28),
            attributes: Attributes::parse(b, 28),
            attribute_mask: Attributes::parse(b, 44),
            enclave_hash: b.subrange(60, 92),
            reserved2: b.subrange(92, 108),
            isvext_prod_id: b.subrange(108, 124),
            isv_prod_id: le_u16(b, 124),
            isv_svn: le_u16(b, 126),
        }
    }

    /// The lines from the selection masks to the attribute mask.
    pub open spec fn text_masks(self) -> Seq<char> {
        binary_line("misc_select", 14, self.misc_select as nat, 32) + binary_line(
            "misc_mask",
            14,
            self.misc_mask as nat,
            32,
        ) + prefixed_hex_line("reserved", 14, self.reserved) + prefixed_hex_line(
            "isv_family_id",
            14,
            self.isv_family_id,
        ) + word_line("attributes", 14, self.attributes.text()) + word_line(
            "attribute_mask",
            14,
            self.attribute_mask.text(),
        )
    }

    /// The lines from the enclave's measurement to the version.
    pub open spec fn text_identity(self) -> Seq<char> {
        prefixed_hex_line("mrenclave", 14, self.enclave_hash) + prefixed_hex_line(
            "reserved2",
            14,
            self.reserved2,
        ) + prefixed_hex_line("isvext_prod_id", 14, self.isvext_prod_id) + decimal_line(
            "isv_prod_id",
            14,
            self.isv_prod_id as nat,
        ) + decimal_line("isv_svn", 14, self.isv_svn as nat)
    }

    /// The body as text: one line for each field in the order of the
    /// layout, names padded to 14 bytes.
    pub open spec fn text(self) -> Seq<char> {
        self.text_masks() + self.text_identity()
    }
}

impl SigStructBody {
    /// Decodes the body from its 128 bytes.
    fn decode(b: &[u8]) -> (r: SigStructBody)
        requires
            b.len() == 128,
        ensures
            r@ == SigStructBodyView::parse(b@),
    {
        SigStructBody {
            misc_select: read_u32(b, 0),
            misc_mask: read_u32(b, 4),
            reserved: read_array::<4>(b, 8),
            isv_family_id: read_array::<16>(b, 12),
            attributes: Attributes::read(b, 28),
            attribute_mask: Attributes::read(b, 44),
            enclave_hash: read_array::<32>(b, 60),
            reserved2: read_array::<16>(b, 92),
            isvext_prod_id: read_array::<16>(b, 108),
            isv_prod_id: read_u16(b, 124),
            isv_svn: read_u16(b, 126),
        }
    }

    /// Renders the lines from the selection masks to the attribute mask.
    fn masks_to_string(&self) -> (s: String)
        ensures
            s@ == self@.text_masks(),
    {
        let mut out = String::new();
        push_binary_line(&mut out, "misc_select", 14, self.misc_select as u64, 32);
        assert(out@ =~= binary_line("misc_select", 14, self.misc_select as nat, 32));
        push_binary_line(&mut out, "misc_mask", 14, self.misc_mask as u64, 32);
        push_prefixed_hex_line(&mut out, "reserved", 14, self.reserved.as_slice());
        push_prefixed_hex_line(&mut out, "isv_family_id", 14, self.isv_family_id.as_slice());
        let attributes = self.attributes.to_string();
        push_word_line(&mut out, "attributes", 14, attributes.as_str());
        let mask = self.attribute_mask.to_string();
        push_word_line(&mut out, "attribute_mask", 14, mask.as_str());
        out
    }

    /// Renders the lines from the enclave's measurement to the version.
    fn identity_to_string(&self) -> (s: String)
        ensures
            s@ == self@.text_identity(),
    {
        let mut out = String::new();
        push_prefixed_hex_line(&mut out, "mrenclave", 14, self.enclave_hash.as_slice());
        assert(out@ =~= prefixed_hex_line("mrenclave", 14, self.enclave_hash@));
        push_prefixed_hex_line(&mut out, "reserved2", 14, self.reserved2.as_slice());
        push_prefixed_hex_line(&mut out, "isvext_prod_id", 14, self.isvext_prod_id.as_slice());
        push_decimal_line(&mut out, "isv_prod_id", 14, self.isv_prod_id as u64);
        push_decimal_line(&mut out, "isv_svn", 14, self.isv_svn as u64);
        out
    }

    /// Renders the body.
    pub fn to_string(&self) -> (s: String)
        ensures
            s@ == self@.text(),
    {
        let mut out = self.masks_to_string();
        let identity = self.identity_to_string();
        out.append(identity.as_str());
        out
    }
}

impl Default for SigStructBody {
    fn default() -> (r: SigStructBody)
        ensures
            r@ == SigStructBodyView::zero(),
    {
        SigStructBody {
            misc_select: 0,
            misc_mask: 0,
            reserved: zero_array::<4>(),
            isv_family_id: zero_array::<16>(),
            attributes: Attributes { flags: 0, xfrm: 0 },
            attribute_mask: Attributes { flags: 0, xfrm: 0 },
            enclave_hash: zero_array::<32>(),
            reserved2: zero_array::<16>(),
            isvext_prod_id: zero_array::<16>(),
            isv_prod_id: 0,
            isv_svn: 0,
        }
    }
}

/// The buffer at the end of a signing structure.
#[derive(Clone, Copy, Debug)]
pub struct SigStructBuffer {
    pub reserved: [u8; 12],
    pub q1: [u8; 384],
    pub q2: [u8; 384],
}

/// What the buffer of a signing structure holds.
pub struct SigStructBufferView {
    pub reserved: Seq<u8>,
    pub q1: Seq<u8>,
    pub q2: Seq<u8>,
}

impl View for SigStructBuffer {
    type V = SigStructBufferView;

    open spec fn view(&self) -> SigStructBufferView {
        SigStructBufferView { reserved: self.reserved@, q1: self.q1@, q2: self.q2@ }
    }
}

impl SigStructBufferView {
    /// The buffer whose every byte is zero.
    pub open spec fn zero() -> SigStructBufferView {
        SigStructBufferView { reserved: zeros(12), q1: zeros(384), q2: zeros(384) }
    }

    /// The buffer that the 780 bytes of `b` encode.
    pub open spec fn parse(b: Seq<u8>) -> SigStructBufferView {
        SigStructBufferView {
            reserved: b.subrange(0, 12),
            q1: b.subrange(12, 396),
            q2: b.subrange(396, 780),
        }
    }

    /// The buffer as text, names padded to 8 bytes.
    pub open spec fn text(self) -> Seq<char> {
        hex_line("reserved", 8, self.reserved) + hex_line("q1", 8, self.q1) + hex_line(
            "q2",
            8,
            self.q2,
        )
    }
}

impl SigStructBuffer {
    /// Decodes the buffer from its 780 bytes.
    fn decode(b: &[u8]) -> (r: SigStructBuffer)
        requires
            b.len() == 780,
        ensures
            r@ == SigStructBufferView::parse(b@),
    {
        SigStructBuffer {
            reserved: read_array::<12>(b, 0),
            q1: read_array::<384>(b, 12),
            q2: read_array::<384>(b, 396),
        }
    }

    /// Renders the buffer.
    pub fn to_string(&self) -> (s: String)
        ensures
            s@ == self@.text(),
    {
        let mut out = String::new();
        push_hex_line(&mut out, "reserved", 8, self.reserved.as_slice());
        assert(out@ =~= hex_line("reserved", 8, self.reserved@));
        push_hex_line(&mut out, "q1", 8, self.q1.as_slice());
        push_hex_line(&mut out, "q2", 8, self.q2.as_slice());
        out
    }
}

impl Default for SigStructBuffer {
    fn default() -> (r: SigStructBuffer)
        ensures
            r@ == SigStructBufferView::zero(),
    {
        SigStructBuffer {
            reserved: zero_array::<12>(),
            q1: zero_array::<384>(),
            q2: zero_array::<384>(),
        }
    }
}

/// A signing structure.
#[derive(Clone, Copy, Debug)]
pub struct SigStruct {
    pub header: SigStructHeader,
    pub key: SigStructKey,
    pub body: SigStructBody,
    pub buffer: SigStructBuffer,
}

/// What a signing structure holds.
pub struct SigStructView {
    pub header: SigStructHeaderView,
    pub key: SigStructKeyView,
    pub body: SigStructBodyView,
    pub buffer: SigStructBufferView,
}

impl View for SigStruct {
    type V = SigStructView;

    open spec fn view(&self) -> SigStructView {
        SigStructView {
            header: self.header@,
            key: self.key@,
            body: self.body@,
            buffer: self.buffer@,
        }
    }
}

impl SigStructView {
    /// The signing structure whose every byte is zero.
    pub open spec fn zero() -> SigStructView {
        SigStructView {
            header: SigStructHeaderView::zero(),
            key: SigStructKeyView::zero(),
            body: SigStructBodyView::zero(),
            buffer: SigStructBufferView::zero(),
        }
    }

    /// The signing structure that the 1808 bytes of `b` encode: the header
    /// in the first 128, the key material up to 900, the body up to 1028 and
    /// the buffer in the rest.
    pub open spec fn parse(b: Seq<u8>) -> SigStructView {
        SigStructView {
            header: SigStructHeaderView::parse(b.subrange(0, 128)),
            key: SigStructKeyView::parse(b.subrange(128, 900)),
            body: SigStructBodyView::parse(b.subrange(900, 1028)),
            buffer: SigStructBufferView::parse(b.subrange(1028, 1808)),
        }
    }

    /// The signing structure as text: its four parts, each under its
    /// heading and, but for the last, with a line feed behind it.
    pub open spec fn text(self) -> Seq<char> {
        "[header]\n"@ + self.header.text() + "\n"@ + "[sig]\n"@ + self.key.text() + "\n"@
            + "[body]\n"@ + self.body.text() + "\n"@ + "[buffer]\n"@ + self.buffer.text()
    }
}

impl SigStruct {
    /// Decodes a signing structure. Every buffer of 1808 bytes is one, and
    /// no other: what the fields hold is not looked at.
    pub fn try_from(value: &[u8]) -> (r: Result<SigStruct, LengthMismatch>)
        ensures
            value.len() == 1808 ==> r is Ok && r->Ok_0@ == SigStructView::parse(value@),
            value.len() != 1808 ==> r is Err && r->Err_0 == (LengthMismatch {
                section: Section::SigStruct,
                expected: 1808,
                actual: value.len(),
            }),
    {
        if value.len() != LENGTH_SIG_STRUCT {
            return Err(
                LengthMismatch {
                    section: Section::SigStruct,
                    expected: LENGTH_SIG_STRUCT,
                    actual: value.len(),
                },
            );
        }
        Ok(
            SigStruct {
                header: SigStructHeader::decode(slice_subrange(value, 0, 128)),
                key: SigStructKey::decode(slice_subrange(value, 128, 900)),
                body: SigStructBody::decode(slice_subrange(value, 900, 1028)),
                buffer: SigStructBuffer::decode(slice_subrange(value, 1028, 1808)),
            },
        )
    }

    /// Renders the signing structure.
    pub fn to_string(&self) -> (s: String)
        ensures
            s@ == self@.text(),
    {
        let mut out = String::new();
        out.append("[header]\n");
        assert(out@ =~= "[header]\n"@);
        let header = self.header.to_string();
        out.append(header.as_str());
        out.append("\n");
        out.append("[sig]\n");
        let key = self.key.to_string();
        out.append(key.as_str());
        out.append("\n");
        out.append("[body]\n");
        let body = self.body.to_string();
        out.append(body.as_str());
        out.append("\n");
        out.append("[buffer]\n");
        let buffer = self.buffer.to_string();
        out.append(buffer.as_str());
        out
    }
}

/// Decoding is a function of the bytes: two signing structures that were
/// decoded from the same buffer are the same, field for field.
pub proof fn lemma_sig_struct_decoding_deterministic(b: Seq<u8>, first: SigStruct, second: SigStruct)
    requires
        first@ == SigStructView::parse(b),
        second@ == SigStructView::parse(b),
    ensures
        first == second,
{
    assert(first.header.header =~= second.header.header);
    assert(first.header.header2 =~= second.header.header2);
    assert(first.header.reserved =~= second.header.reserved);
    assert(first.key.modulus =~= second.key.modulus);
    assert(first.key.exponent =~= second.key.exponent);
    assert(first.key.signature =~= second.key.signature);
    assert(first.body.reserved =~= second.body.reserved);
    assert(first.body.isv_family_id =~= second.body.isv_family_id);
    assert(first.body.enclave_hash =~= second.body.enclave_hash);
    assert(first.body.reserved2 =~= second.body.reserved2);
    assert(first.body.isvext_prod_id =~= second.body.isvext_prod_id);
    assert(first.buffer.reserved =~= second.buffer.reserved);
    assert(first.buffer.q1 =~= second.buffer.q1);
    assert(first.buffer.q2 =~= second.buffer.q2);
}

impl Default for SigStruct {
    fn default() -> (r: SigStruct)
        ensures
            r@ == SigStructView::zero(),
    {
        SigStruct {
            header: SigStructHeader::default(),
            key: SigStructKey::default(),
            body: SigStructBody::default(),
            buffer: SigStructBuffer::default(),
        }
    }
}

} // verus!
