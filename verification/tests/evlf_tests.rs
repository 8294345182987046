use evlf_editor::{BranchFork, BranchPoint, EvlfFlags, EvlfHeader, EVLF_HEADER_SIZE, EVLF_MAGIC};

#[test]
fn test_header_size() {
    // Verify header fits in expected size
    assert!(u32::BITS as usize + core::mem::size_of::<u64>() * 4 <= EVLF_HEADER_SIZE);
}

#[test]
fn test_header_roundtrip() {
    let header = EvlfHeader::new(1920, 1080, 30, 1);
    let bytes = header.to_bytes();
    let parsed = EvlfHeader::from_bytes(&bytes).expect("test assertion");

    assert_eq!(parsed.magic, EVLF_MAGIC);
    assert_eq!(parsed.width, 1920);
    assert_eq!(parsed.height, 1080);
    assert_eq!(parsed.frame_rate_num, 30);
}

#[test]
fn test_header_roundtrip_all_fields() {
    let mut header = EvlfHeader::new(3840, 2160, 60000, 1001);
    header.flags = 0xA5;
    header.track_count = 7;
    header.frame_count = 123456789;
    header.duration_ms = 98765;
    header.metadata_offset = 4096;
    header.index_offset = 8192;
    let bytes = header.to_bytes();
    assert_eq!(bytes.len(), EVLF_HEADER_SIZE);
    let parsed = EvlfHeader::from_bytes(&bytes).expect("test assertion");
    assert_eq!(parsed, header);
}

#[test]
fn test_header_short_input() {
    let short = vec![0u8; EVLF_HEADER_SIZE - 1];
    assert!(EvlfHeader::from_bytes(&short).is_none());
}

#[test]
fn test_header_permissive_decode() {
    // Decoding never checks the magic; validity is a separate question.
    let bytes = vec![0u8; EVLF_HEADER_SIZE];
    let parsed = EvlfHeader::from_bytes(&bytes).expect("test assertion");
    assert!(!parsed.is_valid());
    assert!(EvlfHeader::new(1, 1, 1, 1).is_valid());
}

#[test]
fn test_flags() {
    let mut flags = EvlfFlags::new();
    assert!(!flags.has(EvlfFlags::HAS_ALPHA));

    flags.set(EvlfFlags::HAS_ALPHA);
    flags.set(EvlfFlags::HAS_METADATA);

    assert!(flags.has(EvlfFlags::HAS_ALPHA));
    assert!(flags.has(EvlfFlags::HAS_METADATA));
    assert!(!flags.has(EvlfFlags::HAS_AUDIO));

    flags.clear(EvlfFlags::HAS_ALPHA);
    assert!(!flags.has(EvlfFlags::HAS_ALPHA));
}

#[test]
fn test_branch_point() {
    let forks = vec![
        BranchFork {
            fork_id: 1,
            target_frame: 100,
            label: "Action".to_string(),
            weight_permille: 500,
        },
        BranchFork {
            fork_id: 2,
            target_frame: 200,
            label: "Drama".to_string(),
            weight_permille: 500,
        },
    ];

    let branch = BranchPoint::user_choice(1, 50, forks);
    assert_eq!(branch.forks.len(), 2);
    assert_eq!(branch.frame_number, 50);
}
