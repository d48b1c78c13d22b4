use envvars::assets::EmbeddedImage;
use envvars::checksum::{checksum, to_hex, Checksum, Chunk, Progress, BUFFER_SIZE};

const EMPTY: &str = "af1349b9f5f9a1a6a0404dea36dcc9499bcb25c9adc112b7cc9a93cae41f3262";

fn done(progress: Progress) -> String {
    match progress {
        Progress::Done(hex) => hex,
        _ => panic!("the checksum is not done"),
    }
}

#[test]
fn checksum_of_nothing() {
    assert_eq!(checksum(&[]), EMPTY);
}

#[test]
fn checksum_is_the_hash_in_hex() {
    let inputs: [&[u8]; 4] = [b"", b"abc", b"\0\0\0\0\0\0\0\0\0", &[7u8; 70000]];
    for input in inputs {
        let hex = checksum(input);
        assert_eq!(hex.len(), 64);
        assert_eq!(hex, blake3::hash(input).to_hex().to_string());
        assert_eq!(hex, blake3::hash(input).to_string());
    }
    assert_ne!(checksum(b"abc"), checksum(b"abd"));
}

#[test]
fn checksum_in_pieces_is_the_checksum_of_the_whole() {
    let whole: Vec<u8> = (0..200_000u32).map(|i| (i % 251) as u8).collect();
    let mut sum = Checksum::new();
    for piece in whole.chunks(BUFFER_SIZE) {
        assert!(matches!(sum.take(Chunk::Bytes(piece)), Progress::More));
    }
    assert_eq!(done(sum.take(Chunk::Bytes(&[]))), checksum(&whole));
}

#[test]
fn checksum_reads_on_after_an_interruption() {
    let mut sum = Checksum::new();
    assert!(matches!(sum.take(Chunk::Interrupted), Progress::More));
    assert!(matches!(sum.take(Chunk::Bytes(b"ab")), Progress::More));
    assert!(matches!(sum.take(Chunk::Interrupted), Progress::More));
    assert!(matches!(sum.take(Chunk::Bytes(b"c")), Progress::More));
    assert_eq!(done(sum.take(Chunk::Bytes(b""))), checksum(b"abc"));
}

#[test]
fn checksum_of_an_empty_file() {
    let mut sum = Checksum::new();
    assert_eq!(done(sum.take(Chunk::Bytes(&[]))), EMPTY);
}

#[test]
fn checksum_gives_up_on_a_failed_read() {
    let mut sum = Checksum::new();
    assert!(matches!(sum.take(Chunk::Bytes(b"ab")), Progress::More));
    let error = std::io::Error::new(std::io::ErrorKind::PermissionDenied, "denied");
    match sum.take(Chunk::Failed(error)) {
        Progress::Failed(error) => {
            assert_eq!(error.kind(), std::io::ErrorKind::PermissionDenied)
        }
        _ => panic!("a failed read ends the checksum"),
    }
}

#[test]
fn buffer_is_of_the_documented_size() {
    assert_eq!(BUFFER_SIZE, 65536);
}

#[test]
fn packed_image_carries_its_checksum() {
    let image = EmbeddedImage::pack(vec![1, 2, 3], "name".to_string());
    assert_eq!(image.bin(), &[1, 2, 3]);
    assert_eq!(image.filename(), "name");
    assert_eq!(image.checksum(), checksum(&[1, 2, 3]));
    assert_eq!(image.checksum, blake3::hash(&[1, 2, 3]).to_string());
}

#[test]
fn hex_has_two_lower_case_digits_for_each_byte() {
    assert_eq!(to_hex(&[]), "");
    assert_eq!(to_hex(&[0x00, 0x0f, 0xa5, 0xff, 0x10, 0x9a]), "000fa5ff109a");
    let all: Vec<u8> = (0..=255).collect();
    let expected: String = all.iter().map(|byte| format!("{byte:02x}")).collect();
    assert_eq!(to_hex(&all), expected);
}

#[test]
fn image_is_written_as_three_constants() {
    let image = EmbeddedImage {
        bin: vec![127, 69, 0],
        checksum: "abc".to_string(),
        filename: "name".to_string(),
    };
    assert_eq!(
        image.source(),
        "\nstatic BIN: &[u8] = &[127, 69, 0];\nstatic CHECKSUM: &str = \"abc\";\nstatic FILENAME: &str = \"name\";\n        "
    );
    let bin = vec![1u8, 2, 3];
    let expected = format!(
        "
static BIN: &[u8] = &{bin:?};
static CHECKSUM: &str = \"{}\";
static FILENAME: &str = \"{}\";
        ",
        blake3::hash(&bin),
        "id",
    );
    assert_eq!(EmbeddedImage::pack(bin, "id".to_string()).source(), expected);
}
