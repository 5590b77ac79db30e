use sha512::constants::HASH_SIZE;
use sha512::hasher::{hash, HashError, SHA512Hasher};

fn hex_of(bytes: &[u8]) -> String {
    bytes.iter().map(|b| format!("{:02X}", b)).collect()
}

fn hex_digest_of(message: &[u8]) -> String {
    let mut hasher = SHA512Hasher::new();
    assert_eq!(hasher.pad(message.to_vec()), Ok(()));
    hasher.update();
    hasher.to_hex_hash()
}

const EMPTY_DIGEST: &str = "CF83E1357EEFB8BDF1542850D66D8007D620E4050B5715DC83F4A921D36CE9CE47D0D13C5D85F2B0FF8318D2877EEC2F63B931BD47417A81A538327AF927DA3E";
const ABC_DIGEST: &str = "DDAF35A193617ABACC417349AE20413112E6FA4E89A97EA20A9EEEE64B55D39A2192992A274FC1A836BA3C23A3FEEBBD454D4423643CE80E2A9AC94FA54CA49F";

#[test]
fn initialize_hasher_state_works() {
    let hasher = SHA512Hasher::new();

    let mut bytes = [0u64; HASH_SIZE];
    let state = hasher.finalize();
    bytes.copy_from_slice(&state[..state.len()]);

    assert_eq!(bytes[1], 0xBB67AE8584CAA73B, "State could not be validated");
    assert_eq!(bytes[6], 0x1F83D9ABFB41BD6B, "State could not be validated");
}

#[test]
fn hash_same_message_works() {
    let message = b"means".to_vec();
    let mut hasher = SHA512Hasher::new();
    let _ = hasher.pad(message);

    hasher.update();
    let hash_1 = hasher.to_hex_hash();

    let mut hasher = SHA512Hasher::new();
    let _ = hasher.pad(b"means".to_vec());
    hasher.update();
    let hash_2 = hasher.to_hex_hash();

    assert_eq!(hash_1, hash_2, "Hashes should match");
}

#[test]
fn change_message_changes_hash() {
    let message = b"abc".to_vec();
    let mut hasher = SHA512Hasher::new();
    let _ = hasher.pad(message);

    hasher.update();

    let hash_1 = hasher.to_hash();

    let mut hasher = SHA512Hasher::new();
    let _ = hasher.pad(b"cbc".to_vec());
    hasher.update();
    let hash_2 = hasher.to_hash();

    assert_ne!(hash_1, hash_2, "Hashes should not match");
}

#[test]
fn padding_message_works() {
    let message = b"abc".to_vec();
    let mut hasher = SHA512Hasher::new();
    let _ = hasher.pad(message.clone());

    assert_eq!((hasher.padded_message().unwrap().len() * 8) % 1024, 0);
}

#[test]
fn empty_message_known_answer() {
    assert_eq!(hex_digest_of(b""), EMPTY_DIGEST);
    assert_eq!(hex_of(&hash(b"").unwrap()), EMPTY_DIGEST);
}

#[test]
fn abc_known_answer() {
    assert_eq!(hex_digest_of(b"abc"), ABC_DIGEST);
    assert_eq!(hex_of(&hash(b"abc").unwrap()), ABC_DIGEST);
}

#[test]
fn two_block_known_answer() {
    let m = b"abcdefghbcdefghicdefghijdefghijkefghijklfghijklmghijklmnhijklmnoijklmnopjklmnopqklmnopqrlmnopqrsmnopqrstnopqrstu";
    assert_eq!(m.len(), 112);
    assert_eq!(
        hex_digest_of(m),
        "8E959B75DAE313DA8CF4F72814FC143F8F7779C6EB9F7FA17299AEADB6889018501D289E4900F7E4331B99DEC4B5433AC7D329EEB6DD26545E96E55B874BE909"
    );
}

#[test]
fn boundary_111_bytes_is_one_block() {
    let m = vec![b'a'; 111];
    let mut hasher = SHA512Hasher::new();
    assert_eq!(hasher.pad(m.clone()), Ok(()));
    let p = hasher.padded_message().unwrap().clone();
    assert_eq!(p.len(), 128);
    assert_eq!(p[111], 0x80);
    assert_eq!(&p[120..], &[0, 0, 0, 0, 0, 0, 0x03, 0x78]);
    hasher.update();
    assert_eq!(hasher.block_count(), 1);
    assert_eq!(
        hasher.to_hex_hash(),
        "FA9121C7B32B9E01733D034CFC78CBF67F926C7ED83E82200EF86818196921760B4BEFF48404DF811B953828274461673C68D04E297B0EB7B2B4D60FC6B566A2"
    );
}

#[test]
fn boundary_112_bytes_is_two_blocks() {
    let m = vec![b'a'; 112];
    let mut hasher = SHA512Hasher::new();
    assert_eq!(hasher.pad(m.clone()), Ok(()));
    let p = hasher.padded_message().unwrap().clone();
    assert_eq!(p.len(), 256);
    assert_eq!(p[112], 0x80);
    assert!(p[113..240].iter().all(|&b| b == 0));
    assert_eq!(&p[248..], &[0, 0, 0, 0, 0, 0, 0x03, 0x80]);
    hasher.update();
    assert_eq!(hasher.block_count(), 2);
    assert_eq!(
        hasher.to_hex_hash(),
        "C01D080EFD492776A1C43BD23DD99D0A2E626D481E16782E75D54C2503B5DC32BD05F0F1BA33E568B88FD2D970929B719ECBB152F58F130A407C8830604B70CA"
    );
}

#[test]
fn empty_message_pads_to_one_block() {
    let mut hasher = SHA512Hasher::new();
    assert_eq!(hasher.pad(Vec::new()), Ok(()));
    let p = hasher.padded_message().unwrap();
    assert_eq!(p.len(), 128);
    assert_eq!(p[0], 0x80);
    assert!(p[1..].iter().all(|&b| b == 0));
}

#[test]
fn padding_alignment_and_length_field() {
    for n in [0usize, 1, 3, 55, 110, 111, 112, 127, 128, 129, 239, 240, 1000] {
        let mut hasher = SHA512Hasher::new();
        assert_eq!(hasher.pad(vec![7u8; n]), Ok(()));
        let p = hasher.padded_message().unwrap();
        assert_eq!((p.len() * 8) % 1024, 0);
        assert!(p.len() >= n + 9);
        assert!(p.len() <= n + 17 + 127);
        assert_eq!(&p[..n], &vec![7u8; n][..]);
        assert_eq!(p[n], 0x80);
        let tail = &p[p.len() - 16..];
        let mut value: u128 = 0;
        for &b in tail {
            value = value * 256 + b as u128;
        }
        assert_eq!(value, (n as u128) * 8);
    }
}

#[test]
fn hash_is_deterministic() {
    let m = b"The quick brown fox jumps over the lazy dog";
    let first = hash(m).unwrap();
    for _ in 0..3 {
        assert_eq!(hash(m).unwrap(), first);
    }
    assert_eq!(hex_of(&first), hex_digest_of(m));
}

#[test]
fn single_bit_flips_change_the_digest() {
    let base = b"abc".to_vec();
    let digest = hash(&base).unwrap();
    for i in 0..base.len() {
        for bit in 0..8 {
            let mut flipped = base.clone();
            flipped[i] ^= 1 << bit;
            assert_ne!(hash(&flipped).unwrap(), digest);
        }
    }
    let long = vec![0u8; 200];
    let long_digest = hash(&long).unwrap();
    for i in [0usize, 111, 112, 199] {
        let mut flipped = long.clone();
        flipped[i] ^= 0x10;
        assert_ne!(hash(&flipped).unwrap(), long_digest);
    }
}

#[test]
fn digest_is_64_bytes() {
    for n in [0usize, 1, 111, 112, 128, 300] {
        let d = hash(&vec![0xA5u8; n]).unwrap();
        assert_eq!(d.len(), 64);
        assert_eq!(hex_digest_of(&vec![0xA5u8; n]).len(), 128);
    }
}

#[test]
fn decimal_rendering_of_words() {
    let hasher = SHA512Hasher::new();
    assert_eq!(
        hasher.to_hash(),
        "76408915769560128081350395389617547858743546855649368453551191200917047090968158406964750780013611117044940199260470322708979698028865076620516959819538809"
    );
    let mut hasher = SHA512Hasher::new();
    let _ = hasher.pad(b"abc".to_vec());
    hasher.update();
    assert_eq!(
        hasher.to_hash(),
        "159740453713850846021471817181751464785713620511525501334107653116595733677062419164356178592168394353054748920518149937224806200053903069987439919277215"
    );
}

#[test]
fn bytes_follow_the_state_big_endian() {
    let hasher = SHA512Hasher::new();
    let bytes = hasher.to_bytes();
    assert_eq!(bytes.len(), 64);
    assert_eq!(&bytes[..8], &[0x6a, 0x09, 0xe6, 0x67, 0xf3, 0xbc, 0xc9, 0x08]);
    assert_eq!(
        hex_of(&bytes),
        "6A09E667F3BCC908BB67AE8584CAA73B3C6EF372FE94F82BA54FF53A5F1D36F1510E527FADE682D19B05688C2B3E6C1F1F83D9ABFB41BD6B5BE0CD19137E2179"
    );
    assert_eq!(hasher.to_hex_hash(), hex_of(&bytes));
}

#[test]
fn update_without_message_changes_nothing() {
    let mut hasher = SHA512Hasher::new();
    let before = hasher.finalize();
    hasher.update();
    assert_eq!(hasher.finalize(), before);
    assert_eq!(hasher.block_count(), 0);
    assert!(hasher.padded_message().is_none());
}

#[test]
fn length_overflow_is_an_error_value() {
    let e = HashError::LengthOverflow;
    assert_eq!(e, HashError::LengthOverflow);
    assert_eq!(format!("{:?}", e), "LengthOverflow");
}
