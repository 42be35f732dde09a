//! The remote-attestation quote: a header, the report body of the enclave,
//! and a signature whose length the quote declares.

use crate::bytes::{le_u16, le_u32, read_array, read_u16, read_u32, zero_array, zeros};
use crate::hex::{
    encoded, hex_entry, hex_line, push_encoded, push_hex_entry, push_hex_line,
};
use crate::sgx::attributes::Attributes;
use crate::sgx::length::{validate_minimum_length, LengthMismatch, Section};
use crate::text::{
    binary_line, decimal, hex_literal_line, push_binary_line, push_decimal,
    push_hex_literal_line, push_word_line, word_line,
};
use vstd::prelude::*;
use vstd::slice::{slice_subrange, slice_to_vec};
use vstd::string::*;

verus! {

/// The length of a quote's header.
pub const LENGTH_QUOTE_HEADER: usize = 48;

/// The length of a report body.
pub const LENGTH_REPORT_BODY: usize = 384;

/// Where the declared length of the signature stands in a quote.
pub const OFFSET_SIGNATURE_LENGTH: usize = 432;

/// Where the signature starts in a quote.
pub const OFFSET_SIGNATURE: usize = 436;

/// The header of a quote.
#[derive(Clone, Copy, Debug)]
pub struct QuoteHeader {
    pub version: u16,
    pub att_key_type: u16,
    pub att_key_data_0: u32,
    pub qe_svn: u16,
    pub pce_svn: u16,
    pub vendor_id: [u8; 16],
    pub user_data: [u8; 20],
}

/// What a quote's header holds.
pub struct QuoteHeaderView {
    pub version: u16,
    pub att_key_type: u16,
    pub att_key_data_0: u32,
    pub qe_svn: u16,
    pub pce_svn: u16,
    pub vendor_id: Seq<u8>,
    pub user_data: Seq<u8>,
}

impl View for QuoteHeader {
    type V = QuoteHeaderView;

    open spec fn view(&self) -> QuoteHeaderView {
        QuoteHeaderView {
            version: self.version,
            att_key_type: self.att_key_type,
            att_key_data_0: self.att_key_data_0,
            qe_svn: self.qe_svn,
            pce_svn: self.pce_svn,
            vendor_id: self.vendor_id@,
            user_data: self.user_data@,
        }
    }
}

impl QuoteHeaderView {
    /// The header whose every byte is zero.
    pub open spec fn zero() -> QuoteHeaderView {
        QuoteHeaderView {
            version: 0,
            att_key_type: 0,
            att_key_data_0: 0,
            qe_svn: 0,
            pce_svn: 0,
            vendor_id: zeros(16),
            user_data: zeros(20),
        }
    }

    /// The header that the first 48 bytes of `b` encode.
    pub open spec fn parse(b: Seq<u8>) -> QuoteHeaderView {
        QuoteHeaderView {
            version: le_u16(b, 0),
            att_key_type: le_u16(b, 2),
            att_key_data_0: le_u32(b, 4),
            qe_svn: le_u16(b, 8),
            pce_svn: le_u16(b, 10),
            vendor_id: b.subrange(12, 28),
            user_data: b.subrange(28, 48),
        }
    }

    /// The header as text: one line for each field, names padded to 14
    /// bytes, and no line feed behind the last.
    pub open spec fn text(self) -> Seq<char> {
        hex_literal_line("version", 14, self.version as nat, 4) + hex_literal_line(
            "attn_key_type",
            14,
            self.att_key_type as nat,
            4,
        ) + hex_literal_line("attn_key_data0", 14, self.att_key_data_0 as nat, 8)
            + hex_literal_line("qe_svn", 14, self.qe_svn as nat, 4) + hex_literal_line(
            "pce_svn",
            14,
            self.pce_svn as nat,
            4,
        ) + hex_line("vendor_id", 14, self.vendor_id) + hex_entry("user_data", 14, self.user_data)
    }
}

impl QuoteHeader {
    /// Decodes a header from the first 48 bytes of `value`; fewer bytes are
    /// a length mismatch.
    pub fn try_from(value: &[u8]) -> (r: Result<QuoteHeader, LengthMismatch>)
        ensures
            value.len() >= 48 ==> r is Ok && r->Ok_0@ == QuoteHeaderView::parse(value@),
            value.len() < 48 ==> r is Err && r->Err_0 == (LengthMismatch {
                section: Section::QuoteHeader,
                expected: 48,
                actual: value.len(),
            }),
    {
        match validate_minimum_length(Section::QuoteHeader, value.len(), LENGTH_QUOTE_HEADER) {
            Err(e) => Err(e),
            Ok(_) => Ok(
                QuoteHeader {
                    version: read_u16(value, 0),
                    att_key_type: read_u16(value, 2),
                    att_key_data_0: read_u32(value, 4),
                    qe_svn: read_u16(value, 8),
                    pce_svn: read_u16(value, 10),
                    vendor_id: read_array::<16>(value, 12),
                    user_data: read_array::<20>(value, 28),
                },
            ),
        }
    }

    /// Renders the header.
    pub fn to_string(&self) -> (s: String)
        ensures
            s@ == self@.text(),
    {
        let mut out = String::new();
        push_hex_literal_line(&mut out, "version", 14, self.version as u64, 4);
        assert(out@ =~= hex_literal_line("version", 14, self.version as nat, 4));
        push_hex_literal_line(&mut out, "attn_key_type", 14, self.att_key_type as u64, 4);
        push_hex_literal_line(&mut out, "attn_key_data0", 14, self.att_key_data_0 as u64, 8);
        push_hex_literal_line(&mut out, "qe_svn", 14, self.qe_svn as u64, 4);
        push_hex_literal_line(&mut out, "pce_svn", 14, self.pce_svn as u64, 4);
        push_hex_line(&mut out, "vendor_id", 14, self.vendor_id.as_slice());
        push_hex_entry(&mut out, "user_data", 14, self.user_data.as_slice());
        out
    }
}

impl Default for QuoteHeader {
    fn default() -> (r: QuoteHeader)
        ensures
            r@ == QuoteHeaderView::zero(),
    {
        QuoteHeader {
            version: 0,
            att_key_type: 0,
            att_key_data_0: 0,
            qe_svn: 0,
            pce_svn: 0,
            vendor_id: zero_array::<16>(),
            user_data: zero_array::<20>(),
        }
    }
}

/// The body of an enclave's report.
#[derive(Clone, Copy, Debug)]
pub struct ReportBody {
    pub cpu_svn: [u8; 16],
    pub misc_select: u32,
    pub reserved1: [u8; 12],
    pub isv_ext_prod_id: [u8; 16],
    pub attributes: Attributes,
    pub mr_enclave: [u8; 32],
    pub reserved2: [u8; 32],
    pub mr_signer: [u8; 32],
    pub reserved3: [u8; 32],
    pub config_id: [u8; 64],
    pub isv_prod_id: u16,
    pub isv_svn: u16,
    pub config_svn: u16,
    pub reserved4: [u8; 42],
    pub isv_family_id: [u8; 16],
    pub report_data: [u8; 64],
}

/// What a report body holds.
pub struct ReportBodyView {
    pub cpu_svn: Seq<u8>,
    pub misc_select: u32,
    pub reserved1: Seq<u8>,
    pub isv_ext_prod_id: Seq<u8>,
    pub attributes: Attributes,
    pub mr_enclave: Seq<u8>,
    pub reserved2: Seq<u8>,
    pub mr_signer: Seq<u8>,
    pub reserved3: Seq<u8>,
    pub config_id: Seq<u8>,
    pub isv_prod_id: u16,
    pub isv_svn: u16,
    pub config_svn: u16,
    pub reserved4: Seq<u8>,
    pub isv_family_id: Seq<u8>,
    pub report_data: Seq<u8>,
}

impl View for ReportBody {
    type V = ReportBodyView;

    open spec fn view(&self) -> ReportBodyView {
        ReportBodyView {
            cpu_svn: self.cpu_svn@,
            misc_select: self.misc_select,
            reserved1: self.reserved1@,
            isv_ext_prod_id: self.isv_ext_prod_id@,
            attributes: self.attributes,
            mr_enclave: self.mr_enclave@,
            reserved2: self.reserved2@,
            mr_signer: self.mr_signer@,
            reserved3: self.reserved3@,
            config_id: self.config_id@,
            isv_prod_id: self.isv_prod_id,
            isv_svn: self.isv_svn,
            config_svn: self.config_svn,
            reserved4: self.reserved4@,
            isv_family_id: self.isv_family_id@,
            report_data: self.report_data@,
        }
    }
}

impl ReportBodyView {
    /// The report body whose every byte is zero.
    pub open spec fn zero() -> ReportBodyView {
        ReportBodyView {
            cpu_svn: zeros(16),
            misc_select: 0,
            reserved1: zeros(12),
            isv_ext_prod_id: zeros(16),
            attributes: Attributes { flags: 0, xfrm: 0 },
            mr_enclave: zeros(32),
            reserved2: zeros(32),
            mr_signer: zeros(32),
            reserved3: zeros(32),
            config_id: zeros(64),
            isv_prod_id: 0,
            isv_svn: 0,
            config_svn: 0,
            reserved4: zeros(42),
            isv_family_id: zeros(16),
            report_data: zeros(64),
        }
    }

    /// The report body that the first 384 bytes of `b` encode.
    pub open spec fn parse(b: Seq<u8>) -> ReportBodyView {
        ReportBodyView {
            cpu_svn: b.subrange(0, 16),
            misc_select: le_u32(b, 16),
            reserved1: b.subrange(20, 32),
            isv_ext_prod_id: b.subrange(32, 48),
            attributes: Attributes::parse(b, 48),
            mr_enclave: b.subrange(64, 96),
            reserved2: b.subrange(96, 128),
            mr_signer: b.subrange(128, 160),
            reserved3: b.subrange(160, 192),
            config_id: b.subrange(192, 256),
            isv_prod_id: le_u16(b, 256),
            isv_svn: le_u16(b, 258),
            config_svn: le_u16(b, 260),
            reserved4: b.subrange(262, 304),
            isv_family_id: b.subrange(304, 320),
            report_data: b.subrange(320, 384),
        }
    }

    /// The lines from the CPU's version to the attributes.
    pub open spec fn text_identity(self) -> Seq<char> {
        hex_line("cpu-svn", 15, self.cpu_svn) + binary_line(
            "misc_select",
            15,
            self.misc_select as nat,
            32,
        ) + hex_line("reserved1", 15, self.reserved1) + hex_line(
            "isv_ext_prod_id",
            15,
            self.isv_ext_prod_id,
        ) + word_line("attributes", 15, self.attributes.text())
    }

    /// The lines from the enclave's measurement to the configuration.
    pub open spec fn text_measurements(self) -> Seq<char> {
        hex_line("mr_enclave", 15, self.mr_enclave) + hex_line("reserved2", 15, self.reserved2)
            + hex_line("mr_signer", 15, self.mr_signer) + hex_line("reserved3", 15, self.reserved3)
            + hex_line("config_id", 15, self.config_id)
    }

    /// The lines from the product to the report data, the last without a
    /// line feed.
    pub open spec fn text_product(self) -> Seq<char> {
        hex_literal_line("isv_prod_id", 15, self.isv_prod_id as nat, 4) + hex_literal_line(
            "isv_svn",
            15,
            self.isv_svn as nat,
            4,
        ) + hex_literal_line("config_svn", 15, self.config_svn as nat, 4) + hex_line(
            "reserved4",
            15,
            self.reserved4,
        ) + hex_line("isv_family_id", 15, self.isv_family_id) + hex_entry(
            "report_data",
            15,
            self.report_data,
        )
    }

    /// The report body as text: one line for each field in the order of the
    /// layout, names padded to 15 bytes, and no line feed behind the last.
    pub open spec fn text(self) -> Seq<char> {
        self.text_identity() + self.text_measurements() + self.text_product()
    }
}

impl ReportBody {
    /// Decodes a report body from the first 384 bytes of `value`; fewer
    /// bytes are a length mismatch.
    pub fn try_from(value: &[u8]) -> (r: Result<ReportBody, LengthMismatch>)
        ensures
            value.len() >= 384 ==> r is Ok && r->Ok_0@ == ReportBodyView::parse(value@),
            value.len() < 384 ==> r is Err && r->Err_0 == (LengthMismatch {
                section: Section::ReportBody,
                expected: 384,
                actual: value.len(),
            }),
    {
        match validate_minimum_length(Section::ReportBody, value.len(), LENGTH_REPORT_BODY) {
            Err(e) => Err(e),
            Ok(_) => Ok(
                ReportBody {
                    cpu_svn: read_array::<16>(value, 0),
                    misc_select: read_u32(value, 16),
                    reserved1: read_array::<12>(value, 20),
                    isv_ext_prod_id: read_array::<16>(value, 32),
                    attributes: Attributes::read(value, 48),
                    mr_enclave: read_array::<32>(value, 64),
                    reserved2: read_array::<32>(value, 96),
                    mr_signer: read_array::<32>(value, 128),
                    reserved3: read_array::<32>(value, 160),
                    config_id: read_array::<64>(value, 192),
                    isv_prod_id: read_u16(value, 256),
                    isv_svn: read_u16(value, 258),
                    config_svn: read_u16(value, 260),
                    reserved4: read_array::<42>(value, 262),
                    isv_family_id: read_array::<16>(value, 304),
                    report_data: read_array::<64>(value, 320),
                },
            ),
        }
    }

    /// Renders the lines from the CPU's version to the attributes.
    fn identity_to_string(&self) -> (s: String)
        ensures
            s@ == self@.text_identity(),
    {
        let mut out = String::new();
        push_hex_line(&mut out, "cpu-svn", 15, self.cpu_svn.as_slice());
        assert(out@ =~= hex_line("cpu-svn", 15, self.cpu_svn@));
        push_binary_line(&mut out, "misc_select", 15, self.misc_select as u64, 32);
        push_hex_line(&mut out, "reserved1", 15, self.reserved1.as_slice());
        push_hex_line(&mut out, "isv_ext_prod_id", 15, self.isv_ext_prod_id.as_slice());
        let attributes = self.attributes.to_string();
        push_word_line(&mut out, "attributes", 15, attributes.as_str());
        out
    }

    /// Renders the lines from the enclave's measurement to the configuration.
    fn measurements_to_string(&self) -> (s: String)
        ensures
            s@ == self@.text_measurements(),
    {
        let mut out = String::new();
        push_hex_line(&mut out, "mr_enclave", 15, self.mr_enclave.as_slice());
        assert(out@ =~= hex_line("mr_enclave", 15, self.mr_enclave@));
        push_hex_line(&mut out, "reserved2", 15, self.reserved2.as_slice());
        push_hex_line(&mut out, "mr_signer", 15, self.mr_signer.as_slice());
        push_hex_line(&mut out, "reserved3", 15, self.reserved3.as_slice());
        push_hex_line(&mut out, "config_id", 15, self.config_id.as_slice());
        out
    }

    /// Renders the lines from the product to the report data.
    fn product_to_string(&self) -> (s: String)
        ensures
            s@ == self@.text_product(),
    {
        let mut out = String::new();
        push_hex_literal_line(&mut out, "isv_prod_id", 15, self.isv_prod_id as u64, 4);
        assert(out@ =~= hex_literal_line("isv_prod_id", 15, self.isv_prod_id as nat, 4));
        push_hex_literal_line(&mut out, "isv_svn", 15, self.isv_svn as u64, 4);
        push_hex_literal_line(&mut out, "config_svn", 15, self.config_svn as u64, 4);
        push_hex_line(&mut out, "reserved4", 15, self.reserved4.as_slice());
        push_hex_line(&mut out, "isv_family_id", 15, self.isv_family_id.as_slice());
        push_hex_entry(&mut out, "report_data", 15, self.report_data.as_slice());
        out
    }

    /// Renders the report body.
    pub fn to_string(&self) -> (s: String)
        ensures
            s@ == self@.text(),
    {
        let mut out = self.identity_to_string();
        let measurements = self.measurements_to_string();
        out.append(measurements.as_str());
        let product = self.product_to_string();
        out.append(product.as_str());
        out
    }
}

impl Default for ReportBody {
    fn default() -> (r: ReportBody)
        ensures
            r@ == ReportBodyView::zero(),
    {
        ReportBody {
            cpu_svn: zero_array::<16>(),
            misc_select: 0,
            reserved1: zero_array::<12>(),
            isv_ext_prod_id: zero_array::<16>(),
            attributes: Attributes { flags: 0, xfrm: 0 },
            mr_enclave: zero_array::<32>(),
            reserved2: zero_array::<32>(),
            mr_signer: zero_array::<32>(),
            reserved3: zero_array::<32>(),
            config_id: zero_array::<64>(),
            isv_prod_id: 0,
            isv_svn: 0,
            config_svn: 0,
            reserved4: zero_array::<42>(),
            isv_family_id: zero_array::<16>(),
            report_data: zero_array::<64>(),
        }
    }
}

/// A quote: what was decoded of it.
#[derive(Clone, Debug)]
pub struct Quote3 {
    pub header: QuoteHeader,
    pub body: ReportBody,
    pub signature: Vec<u8>,
}

/// What a quote holds.
pub struct Quote3View {
    pub header: QuoteHeaderView,
    pub body: ReportBodyView,
    pub signature: Seq<u8>,
}

impl View for Quote3 {
    type V = Quote3View;

    open spec fn view(&self) -> Quote3View {
        Quote3View { header: self.header@, body: self.body@, signature: self.signature@ }
    }
}

impl Quote3View {
    /// The quote whose header and body are zero and whose signature is
    /// empty.
    pub open spec fn zero() -> Quote3View {
        Quote3View {
            header: QuoteHeaderView::zero(),
            body: ReportBodyView::zero(),
            signature: Seq::empty(),
        }
    }

    /// The length of the signature that `b` declares, in the four bytes
    /// behind the report body.
    pub open spec fn declared_signature_length(b: Seq<u8>) -> u32 {
        le_u32(b, 432)
    }

    /// Why `b` is no quote, if it is none. The parts are looked at in the
    /// order of the layout, and the first that is too short is reported with
    /// the bytes that were left for it. A buffer that holds header, body and
    /// declared length is a quote where exactly as many bytes follow as it
    /// declares.
    pub open spec fn failure(b: Seq<u8>) -> Option<LengthMismatch> {
        if b.len() < 48 {
            Some(
                LengthMismatch {
                    section: Section::QuoteHeader,
                    expected: 48,
                    actual: b.len() as usize,
                },
            )
        } else if b.len() < 432 {
            Some(
                LengthMismatch {
                    section: Section::ReportBody,
                    expected: 384,
                    actual: (b.len() - 48) as usize,
                },
            )
        } else if b.len() < 436 {
            Some(
                LengthMismatch {
                    section: Section::SignatureLength,
                    expected: 4,
                    actual: (b.len() - 432) as usize,
                },
            )
        } else if b.len() - 436 != Self::declared_signature_length(b) {
            Some(
                LengthMismatch {
                    section: Section::Signature,
                    expected: Self::declared_signature_length(b) as usize,
                    actual: (b.len() - 436) as usize,
                },
            )
        } else {
            None
        }
    }

    /// The quote that `b` encodes: the header in its first 48 bytes, the
    /// report body in the next 384, and behind the declared length the
    /// signature, which is the rest.
    pub open spec fn parse(b: Seq<u8>) -> Quote3View {
        Quote3View {
            header: QuoteHeaderView::parse(b),
            body: ReportBodyView::parse(b.subrange(48, b.len() as int)),
            signature: b.subrange(436, b.len() as int),
        }
    }

    /// The quote as text: header, body and signature, each under its
    /// heading.
    pub open spec fn text(self) -> Seq<char> {
        "[header]\n"@ + self.header.text() + "\n"@ + "\n"@ + "[body]\n"@ + self.body.text() + "\n"@
            + "\n"@ + "[sig]\n"@ + "length = "@ + decimal(self.signature.len()) + "\n"@
            + "data   = "@ + encoded(self.signature) + "\n"@
    }
}

impl Quote3 {
    /// Decodes a quote. It succeeds exactly on the buffers for which
    /// `Quote3View::failure` finds nothing wrong, and reports what that
    /// function gives on all others.
    pub fn try_from(value: &[u8]) -> (r: Result<Quote3, LengthMismatch>)
        ensures
            Quote3View::failure(value@) is None ==> r is Ok && r->Ok_0@ == Quote3View::parse(
                value@,
            ),
            Quote3View::failure(value@) is Some ==> r is Err && Some(r->Err_0)
                == Quote3View::failure(value@),
    {
        let len: usize = value.len();
        let header = match QuoteHeader::try_from(value) {
            Ok(h) => h,
            Err(e) => {
                return Err(e);
            },
        };
        let rest = slice_subrange(value, LENGTH_QUOTE_HEADER, len);
        let body = match ReportBody::try_from(rest) {
            Ok(b) => b,
            Err(e) => {
                return Err(e);
            },
        };
        match validate_minimum_length(Section::SignatureLength, len - OFFSET_SIGNATURE_LENGTH, 4) {
            Ok(_) => {},
            Err(e) => {
                return Err(e);
            },
        }
        let declared: u32 = read_u32(value, OFFSET_SIGNATURE_LENGTH);
        let left: usize = len - OFFSET_SIGNATURE;
        if left != declared as usize {
            return Err(
                LengthMismatch {
                    section: Section::Signature,
                    expected: declared as usize,
                    actual: left,
                },
            );
        }
        let signature = slice_to_vec(slice_subrange(value, OFFSET_SIGNATURE, len));
        Ok(Quote3 { header, body, signature })
    }

    /// Renders the quote.
    pub fn to_string(&self) -> (s: String)
        ensures
            s@ == self@.text(),
    {
        let mut out = String::new();
        out.append("[header]\n");
        assert(out@ =~= "[header]\n"@);
        let header = self.header.to_string();
        out.append(header.as_str());
        out.append("\n");
        out.append("\n");
        out.append("[body]\n");
        let body = self.body.to_string();
        out.append(body.as_str());
        out.append("\n");
        out.append("\n");
        out.append("[sig]\n");
        out.append("length = ");
        push_decimal(&mut out, self.signature.len() as u64);
        out.append("\n");
        out.append("data   = ");
        push_encoded(&mut out, self.signature.as_slice());
        out.append("\n");
        out
    }
}

/// A buffer is a quote exactly where it holds header, body and declared
/// length, 436 bytes together, and behind them as many bytes as it
/// declares. Every buffer that holds the 436 bytes and then another number
/// of bytes is refused with the declared number as the expected length and
/// the number of bytes found as the actual one.
pub proof fn lemma_quote_length(b: Seq<u8>)
    requires
        b.len() <= usize::MAX,
    ensures
        Quote3View::failure(b) is None <==> b.len() >= 436 && b.len()
            == Quote3View::declared_signature_length(b) + 436,
        Quote3View::failure(b) is None ==> Quote3View::parse(b).signature.len()
            == Quote3View::declared_signature_length(b),
        b.len() >= 436 && b.len() != Quote3View::declared_signature_length(b) + 436
            ==> Quote3View::failure(b) == Some(
            LengthMismatch {
                section: Section::Signature,
                expected: Quote3View::declared_signature_length(b) as usize,
                actual: (b.len() - 436) as usize,
            },
        ),
{
}

/// Decoding is a function of the bytes: two quotes that were decoded from
/// the same buffer have the same header and the same body, field for field,
/// and signatures of the same bytes.
pub proof fn lemma_quote_decoding_deterministic(b: Seq<u8>, first: Quote3, second: Quote3)
    requires
        first@ == Quote3View::parse(b),
        second@ == Quote3View::parse(b),
    ensures
        first.header == second.header,
        first.body == second.body,
        first.signature@ == second.signature@,
{
    assert(first.header.vendor_id =~= second.header.vendor_id);
    assert(first.header.user_data =~= second.header.user_data);
    assert(first.body.cpu_svn =~= second.body.cpu_svn);
    assert(first.body.reserved1 =~= second.body.reserved1);
    assert(first.body.isv_ext_prod_id =~= second.body.isv_ext_prod_id);
    assert(first.body.mr_enclave =~= second.body.mr_enclave);
    assert(first.body.reserved2 =~= second.body.reserved2);
    assert(first.body.mr_signer =~= second.body.mr_signer);
    assert(first.body.reserved3 =~= second.body.reserved3);
    assert(first.body.config_id =~= second.body.config_id);
    assert(first.body.reserved4 =~= second.body.reserved4);
    assert(first.body.isv_family_id =~= second.body.isv_family_id);
    assert(first.body.report_data =~= second.body.report_data);
}

impl Default for Quote3 {
    fn default() -> (r: Quote3)
        ensures
            r@ == Quote3View::zero(),
    {
        Quote3 { header: QuoteHeader::default(), body: ReportBody::default(), signature: Vec::new() }
    }
}

} // verus!
