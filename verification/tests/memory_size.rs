use diom::cfg::memory_size::{available_memory, MemorySize, MemorySizeError};
use std::str::FromStr;

const VECTORS: &[(&str, MemorySize)] = &[
    ("1", MemorySize::Bytes(1)),
    ("1_024_000", MemorySize::Bytes(1024000)),
    ("1kb", MemorySize::Bytes(1000)),
    ("1KiB", MemorySize::Bytes(1024)),
    ("1mb", MemorySize::Bytes(1000000)),
    ("1MiB", MemorySize::Bytes(1048576)),
    ("1_024 KiB", MemorySize::Bytes(1048576)),
    ("50%", MemorySize::Percent(50)),
];

const INVALID_STRINGS: &[&str] = &[
    "all of it",
    "1 byte",
    "1024MB and also some garbage",
    "1.44MB",
];

#[test]
fn test_fromstr() {
    for (input, expected) in VECTORS {
        let parsed: MemorySize = input.parse().expect("should parse");
        assert_eq!(parsed, *expected);
    }
    for input in INVALID_STRINGS {
        MemorySize::from_str(input).expect_err("should fail to parse");
    }
}

#[test]
fn test_serde_deserialize() {
    for (input, expected) in VECTORS {
        let parsed: MemorySize = input.parse().expect("should parse");
        assert_eq!(parsed, *expected);
        let serialized = parsed.to_text();
        let deserialized: MemorySize = serialized.parse().expect("should re-deserialize");
        assert_eq!(deserialized, *expected);
    }
}

#[test]
fn test_as_bytes() {
    assert_eq!(MemorySize::Bytes(2048).as_bytes(), 2048);
    assert!(MemorySize::Percent(100).as_bytes() > 32 * 1024 * 1024);
}

#[test]
fn percentages_of_known_memory() {
    assert_eq!(MemorySize::Percent(20).as_bytes_with_memory(1000), 200);
    assert_eq!(MemorySize::Percent(20).as_bytes_with_memory(0), 32 * 1024 * 1024);
    assert_eq!(MemorySize::fjall_default_cache(), MemorySize::Bytes(33554432));
}

#[test]
fn parse_errors_by_kind() {
    assert_eq!(MemorySize::parse("1 byte"), Err(MemorySizeError::UnknownSuffix));
    assert_eq!(MemorySize::parse("300%"), Err(MemorySizeError::NotANumber));
    assert_eq!(MemorySize::parse(""), Err(MemorySizeError::NotANumber));
    assert_eq!(MemorySize::parse("kb"), Err(MemorySizeError::NotANumber));
    assert_eq!(MemorySize::parse("20000000TiB"), Err(MemorySizeError::TooLarge));
    assert_eq!(MemorySize::parse("2 TB"), Ok(MemorySize::Bytes(2_000_000_000_000)));
    assert_eq!(MemorySize::parse("3\u{212A}b"), Ok(MemorySize::Bytes(3000)));
}

#[test]
fn written_sizes_read_back() {
    assert_eq!(MemorySize::Bytes(1048576).to_text(), "1048576");
    assert_eq!(MemorySize::Percent(7).to_text(), "7%");
    for size in [MemorySize::Bytes(0), MemorySize::Bytes(u64::MAX), MemorySize::Percent(255)] {
        assert_eq!(MemorySize::parse(&size.to_text()), Ok(size));
    }
}

#[test]
fn available_memory_prefers_cgroup_limit() {
    assert_eq!(available_memory(true, Some(512), 4096), 512);
    assert_eq!(available_memory(true, None, 4096), 4096);
    assert_eq!(available_memory(false, Some(512), 4096), 0);
    assert_eq!(available_memory(false, None, 4096), 0);
}
