use gramine_cli::sgx::{
    Attributes, LengthMismatch, Section, SigStruct, SigStructBody, SigStructBuffer,
    SigStructHeader, SigStructKey,
};

fn sample_sig_struct_bytes() -> Vec<u8> {
    let mut b: Vec<u8> = vec![0u8; 1808];
    for i in 0..1808usize {
        b[i] = (i % 251) as u8;
    }
    b
}

fn copied(b: &[u8], from: usize, to: usize) -> Vec<u8> {
    b[from..to].to_vec()
}

#[test]
fn sig_struct_of_zeros_decodes() {
    let b = vec![0u8; 1808];
    let ss = SigStruct::try_from(&b).expect("1808 bytes are a signing structure");
    assert_eq!(ss.header.type_, 0);
    assert_eq!(ss.header.module_vendor, 0);
    assert_eq!(ss.header.date, 0);
    assert_eq!(ss.header.hw_version, 0);
    assert_eq!(ss.header.header, [0u8; 12]);
    assert_eq!(ss.key.exponent, [0u8; 4]);
    assert_eq!(ss.body.isv_prod_id, 0);
    assert_eq!(ss.body.attributes.flags, 0);
    assert_eq!(ss.buffer.q2, [0u8; 384]);
    let text = ss.to_string();
    assert!(text.contains("type             = prod\n"));
    assert!(text.contains("module_vendor    = isv\n"));
}

#[test]
fn sig_struct_one_byte_short_is_a_mismatch() {
    let b = vec![0xa5u8; 1807];
    let err = SigStruct::try_from(&b).expect_err("1807 bytes are too few");
    assert_eq!(err, LengthMismatch { section: Section::SigStruct, expected: 1808, actual: 1807 });
    assert_eq!(err.to_string(), "bad length: expect 1808, got 1807");
}

#[test]
fn sig_struct_of_any_other_length_is_a_mismatch() {
    let lengths: [usize; 7] = [0, 1, 128, 900, 1028, 1809, 4096];
    for n in lengths {
        let b = vec![0u8; n];
        let err = SigStruct::try_from(&b).expect_err("only 1808 bytes are accepted");
        assert_eq!(err.section, Section::SigStruct);
        assert_eq!(err.expected, 1808);
        assert_eq!(err.actual, n);
    }
}

#[test]
fn sig_struct_fields_come_from_their_offsets() {
    let b = sample_sig_struct_bytes();
    let ss = SigStruct::try_from(&b).expect("1808 bytes");
    assert_eq!(ss.header.header.to_vec(), copied(&b, 0, 12));
    assert_eq!(ss.header.type_, u32::from_le_bytes([b[12], b[13], b[14], b[15]]));
    assert_eq!(ss.header.module_vendor, u32::from_le_bytes([b[16], b[17], b[18], b[19]]));
    assert_eq!(ss.header.date, u32::from_le_bytes([b[20], b[21], b[22], b[23]]));
    assert_eq!(ss.header.header2.to_vec(), copied(&b, 24, 40));
    assert_eq!(ss.header.hw_version, u32::from_le_bytes([b[40], b[41], b[42], b[43]]));
    assert_eq!(ss.header.reserved.to_vec(), copied(&b, 44, 128));

    assert_eq!(ss.key.modulus.to_vec(), copied(&b, 128, 512));
    assert_eq!(ss.key.exponent.to_vec(), copied(&b, 512, 516));
    assert_eq!(ss.key.signature.to_vec(), copied(&b, 516, 900));

    assert_eq!(ss.body.misc_select, u32::from_le_bytes([b[900], b[901], b[902], b[903]]));
    assert_eq!(ss.body.misc_mask, u32::from_le_bytes([b[904], b[905], b[906], b[907]]));
    assert_eq!(ss.body.reserved.to_vec(), copied(&b, 908, 912));
    assert_eq!(ss.body.isv_family_id.to_vec(), copied(&b, 912, 928));
    let mut eight = [0u8; 8];
    eight.copy_from_slice(&b[928..936]);
    assert_eq!(ss.body.attributes.flags, u64::from_le_bytes(eight));
    eight.copy_from_slice(&b[936..944]);
    assert_eq!(ss.body.attributes.xfrm, u64::from_le_bytes(eight));
    eight.copy_from_slice(&b[944..952]);
    assert_eq!(ss.body.attribute_mask.flags, u64::from_le_bytes(eight));
    eight.copy_from_slice(&b[952..960]);
    assert_eq!(ss.body.attribute_mask.xfrm, u64::from_le_bytes(eight));
    assert_eq!(ss.body.enclave_hash.to_vec(), copied(&b, 960, 992));
    assert_eq!(ss.body.reserved2.to_vec(), copied(&b, 992, 1008));
    assert_eq!(ss.body.isvext_prod_id.to_vec(), copied(&b, 1008, 1024));
    assert_eq!(ss.body.isv_prod_id, u16::from_le_bytes([b[1024], b[1025]]));
    assert_eq!(ss.body.isv_svn, u16::from_le_bytes([b[1026], b[1027]]));

    assert_eq!(ss.buffer.reserved.to_vec(), copied(&b, 1028, 1040));
    assert_eq!(ss.buffer.q1.to_vec(), copied(&b, 1040, 1424));
    assert_eq!(ss.buffer.q2.to_vec(), copied(&b, 1424, 1808));
}

#[test]
fn sig_struct_integers_are_little_endian() {
    let mut b = vec![0u8; 1808];
    b[12] = 0x01;
    b[16] = 0x86;
    b[17] = 0x80;
    b[20] = 0x17;
    b[21] = 0x20;
    b[22] = 0x05;
    b[23] = 0x09;
    b[1024] = 0x34;
    b[1025] = 0x12;
    b[928] = 0x04;
    b[935] = 0x80;
    let ss = SigStruct::try_from(&b).expect("1808 bytes");
    assert_eq!(ss.header.type_, 1);
    assert_eq!(ss.header.module_vendor, 0x8086);
    assert_eq!(ss.header.date, 0x0905_2017);
    assert_eq!(ss.body.isv_prod_id, 0x1234);
    assert_eq!(ss.body.attributes.flags, 0x8000_0000_0000_0004);
}

#[test]
fn sig_struct_decoding_twice_gives_the_same() {
    let b = sample_sig_struct_bytes();
    let first = SigStruct::try_from(&b).expect("1808 bytes");
    let second = SigStruct::try_from(&b).expect("1808 bytes");
    assert_eq!(format!("{:?}", first), format!("{:?}", second));
    assert_eq!(first.to_string(), second.to_string());
}

#[test]
fn sig_struct_content_is_not_validated() {
    let b = vec![0xffu8; 1808];
    let ss = SigStruct::try_from(&b).expect("content is not looked at");
    assert_eq!(ss.header.type_, u32::MAX);
    assert_eq!(ss.header.reserved, [0xffu8; 84]);
    assert_eq!(ss.body.reserved2, [0xffu8; 16]);
}

#[test]
fn header_labels_intel_and_other_vendors() {
    let mut header = SigStructHeader::default();
    header.module_vendor = 0x8086;
    assert!(header.to_string().contains("module_vendor    = intel\n"));
    let others: [u32; 5] = [0, 1, 0x8085, 0x8087, 0x0001_8086];
    for v in others {
        header.module_vendor = v;
        let text = header.to_string();
        assert!(text.contains("module_vendor    = isv\n"));
        assert!(!text.contains("intel"));
    }
}

#[test]
fn header_type_goes_by_its_lowest_bit() {
    let mut header = SigStructHeader::default();
    let debug: [u32; 4] = [1, 3, 0x8000_0001, u32::MAX];
    for t in debug {
        header.type_ = t;
        assert!(header.to_string().contains("type             = debug\n"));
    }
    let prod: [u32; 4] = [0, 2, 0x8000_0000, u32::MAX - 1];
    for t in prod {
        header.type_ = t;
        assert!(header.to_string().contains("type             = prod\n"));
    }
}

#[test]
fn header_date_is_split_into_year_month_day() {
    let mut header = SigStructHeader::default();
    // day 0x17 = 23, month 0x05 = 5, year 0x07e6 = 2022
    header.date = 0x1705_07e6;
    assert!(header.to_string().contains("date(yyyy-mm-dd) = 2022-05-23\n"));
    header.date = 0;
    assert!(header.to_string().contains("date(yyyy-mm-dd) = 0-00-00\n"));
    header.date = u32::MAX;
    assert!(header.to_string().contains("date(yyyy-mm-dd) = 65535-255-255\n"));
    header.date = 0x0102_0003;
    assert!(header.to_string().contains("date(yyyy-mm-dd) = 3-02-01\n"));
}

#[test]
fn header_date_agrees_with_the_standard_formatter() {
    let mut header = SigStructHeader::default();
    let dates: [u32; 6] = [0, 0x0101_0001, 0x1f0c_07e7, 0x0a0b_0c0d, 0x6364_ffff, u32::MAX];
    for date in dates {
        header.date = date;
        let (year, month, day) = (date & 0xffff, (date >> 16) & 0xff, date >> 24);
        let line = format!("date(yyyy-mm-dd) = {year}-{month:#02}-{day:#02}\n");
        assert!(header.to_string().contains(&line));
    }
}

#[test]
fn header_text_is_exact() {
    let mut header = SigStructHeader::default();
    header.header = [0x06, 0, 0, 0, 0xe1, 0, 0, 0, 0, 0, 0x01, 0];
    header.type_ = 0x8000_0000;
    header.module_vendor = 0x8086;
    header.date = 0x0c1f_07e7;
    header.header2 = [0x01, 0x01, 0, 0, 0x60, 0, 0, 0, 0x60, 0, 0, 0, 0x01, 0, 0, 0];
    header.hw_version = 7;
    let expected = format!(
        "{}{}{}{}{}{}{}",
        "header           = 06000000e10000000000" .to_string() + "0100\n",
        "type             = prod\n",
        "module_vendor    = intel\n",
        "date(yyyy-mm-dd) = 2023-31-12\n",
        "header2          = 01010000600000006000000001000000\n",
        "hw_version       = 7  # non-zero for Launch Enclaves; Otherwise 0\n",
        format!("reserved         = {}\n", "00".repeat(84)),
    );
    assert_eq!(header.to_string(), expected);
}

#[test]
fn key_text_shows_the_exponent_as_a_number() {
    let mut key = SigStructKey::default();
    key.modulus[0] = 0xab;
    key.exponent = [3, 0, 0, 0];
    key.signature[383] = 0xcd;
    let expected = format!(
        "modulus   = ab{}\nexponent  = 3\nsignature = {}cd\n",
        "00".repeat(383),
        "00".repeat(383)
    );
    assert_eq!(key.to_string(), expected);
    key.exponent = [0x01, 0x00, 0x01, 0x00];
    assert!(key.to_string().contains("exponent  = 65537\n"));
    key.exponent = [0xff, 0xff, 0xff, 0xff];
    assert!(key.to_string().contains("exponent  = 4294967295\n"));
}

#[test]
fn body_text_is_exact() {
    let mut body = SigStructBody::default();
    body.misc_select = 1;
    body.misc_mask = 0xffff_ffff;
    body.reserved = [1, 2, 3, 4];
    body.isv_family_id[15] = 0x10;
    body.attributes = Attributes { flags: 4, xfrm: 3 };
    body.attribute_mask = Attributes { flags: u64::MAX, xfrm: 0 };
    body.enclave_hash[0] = 0xee;
    body.isv_prod_id = 513;
    body.isv_svn = 65535;
    let expected = format!(
        "{}{}{}{}{}{}{}{}{}{}{}",
        format!("misc_select    = {:#034b}\n", 1u32),
        format!("misc_mask      = {:#034b}\n", 0xffff_ffffu32),
        "reserved       = 0x01020304\n",
        format!("isv_family_id  = 0x{}10\n", "00".repeat(15)),
        format!("attributes     = flags={:#066b}, xfrm={:#066b}\n", 4u64, 3u64),
        format!("attribute_mask = flags={:#066b}, xfrm={:#066b}\n", u64::MAX, 0u64),
        format!("mrenclave      = 0xee{}\n", "00".repeat(31)),
        format!("reserved2      = 0x{}\n", "00".repeat(16)),
        format!("isvext_prod_id = 0x{}\n", "00".repeat(16)),
        "isv_prod_id    = 513\n",
        "isv_svn        = 65535\n",
    );
    assert_eq!(body.to_string(), expected);
}

#[test]
fn buffer_text_is_exact() {
    let mut buffer = SigStructBuffer::default();
    buffer.reserved[11] = 0x7f;
    buffer.q1[1] = 0x01;
    buffer.q2[0] = 0x02;
    let expected = format!(
        "reserved = {}7f\nq1       = 0001{}\nq2       = 02{}\n",
        "00".repeat(11),
        "00".repeat(382),
        "00".repeat(383)
    );
    assert_eq!(buffer.to_string(), expected);
}

#[test]
fn sig_struct_text_has_its_four_parts_under_headings() {
    let b = sample_sig_struct_bytes();
    let ss = SigStruct::try_from(&b).expect("1808 bytes");
    let expected = format!(
        "[header]\n{}\n[sig]\n{}\n[body]\n{}\n[buffer]\n{}",
        ss.header.to_string(),
        ss.key.to_string(),
        ss.body.to_string(),
        ss.buffer.to_string()
    );
    assert_eq!(ss.to_string(), expected);
    assert!(ss.to_string().ends_with("\n"));
    assert!(!ss.to_string().ends_with("\n\n"));
}

#[test]
fn attributes_text_shows_all_bits() {
    let a = Attributes { flags: 0x0000_0000_0000_0005, xfrm: 0x8000_0000_0000_0000 };
    let expected = format!(
        "flags=0b{}101, xfrm=0b1{}",
        "0".repeat(61),
        "0".repeat(63)
    );
    assert_eq!(a.to_string(), expected);
    assert_eq!(a.to_string().len(), 6 + 66 + 7 + 66);
}

#[test]
fn defaults_are_all_zero() {
    let ss = SigStruct::default();
    assert_eq!(ss.header.header, [0u8; 12]);
    assert_eq!(ss.header.reserved, [0u8; 84]);
    assert_eq!(ss.key.modulus, [0u8; 384]);
    assert_eq!(ss.key.signature, [0u8; 384]);
    assert_eq!(ss.body.enclave_hash, [0u8; 32]);
    assert_eq!(ss.buffer.q1, [0u8; 384]);
    let decoded = SigStruct::try_from(&vec![0u8; 1808]).expect("1808 bytes");
    assert_eq!(format!("{:?}", ss), format!("{:?}", decoded));
    let a = Attributes::default();
    assert_eq!((a.flags, a.xfrm), (0, 0));
}
