use steghunt::{accepts, has_carrier_magic, Digests, Discovery};

fn jpeg(len: usize, fill: u8) -> Vec<u8> {
    let mut v = vec![0xFF, 0xD8, 0xFF, 0xE0];
    while v.len() < len {
        v.push(fill);
    }
    v
}

fn wav(len: usize) -> Vec<u8> {
    let mut v = vec![0x52, 0x49, 0x46, 0x46];
    while v.len() < len {
        v.push(7);
    }
    v
}

#[test]
fn magic_signatures() {
    assert!(has_carrier_magic(&[0x42, 0x4D, 0, 0]));
    assert!(has_carrier_magic(&[0xFF, 0xD8, 1, 2]));
    assert!(has_carrier_magic(&[0x2E, 0x73, 0x6E, 0x64]));
    assert!(has_carrier_magic(&[0x52, 0x49, 0x46, 0x46]));
    assert!(has_carrier_magic(&[0x52, 0x49, 0x46, 0x46, 9, 9]));
    assert!(!has_carrier_magic(&[0x2E, 0x73, 0x6E, 0x65]));
    assert!(!has_carrier_magic(&[0x52, 0x49, 0x46, 0x47]));
    assert!(!has_carrier_magic(&[0x89, 0x50, 0x4E, 0x47]));
}

#[test]
fn short_headers_rejected() {
    assert!(!has_carrier_magic(&[]));
    assert!(!has_carrier_magic(&[0x42, 0x4D]));
    assert!(!has_carrier_magic(&[0xFF, 0xD8, 0xFF]));
    assert!(!accepts(3, &[0xFF, 0xD8, 0xFF], 0));
}

#[test]
fn size_threshold() {
    assert!(accepts(1024, &[0xFF, 0xD8, 0, 0], 1024));
    assert!(!accepts(1023, &[0xFF, 0xD8, 0, 0], 1024));
    assert!(accepts(0, &[0x42, 0x4D, 0, 0], 0));
}

#[test]
fn small_jpeg_is_left_out() {
    let big = jpeg(2000, 1);
    let small = jpeg(500, 2);
    let mut d = Discovery::new("in".to_string(), 1024, false, false);
    assert_eq!(d.next_dir(), Some("in".to_string()));
    assert!(d.offer_file("in/big.jpg".to_string(), 2000, &big[..4], None));
    assert!(!d.offer_file("in/small.jpg".to_string(), 500, &small[..4], None));
    assert_eq!(d.next_dir(), None);
    let c = d.into_candidates();
    assert_eq!(c.len(), 1);
    assert_eq!(c[0].path, "in/big.jpg");
    assert_eq!(c[0].dir, "in");
    assert_eq!(c[0].size, 2000);
    assert_eq!(c[0].header, vec![0xFF, 0xD8, 0xFF, 0xE0]);
    assert_eq!(c[0].digest, None);
}

#[test]
fn identical_wavs_kept_once_with_dedup() {
    let a = wav(3000);
    let b = wav(3000);
    let mut d = Discovery::new("in".to_string(), 1024, true, false);
    d.next_dir();
    assert!(d.wants_content(3000, &a[..4]));
    assert!(d.offer_file("in/a.wav".to_string(), 3000, &a[..4], Some(&a)));
    assert!(!d.offer_file("in/b.wav".to_string(), 3000, &b[..4], Some(&b)));
    let c = d.into_candidates();
    assert_eq!(c.len(), 1);
    assert_eq!(c[0].path, "in/a.wav");
    assert_eq!(c[0].digest.as_ref().map(|s| s.len()), Some(64));
}

#[test]
fn different_contents_kept_with_dedup() {
    let a = wav(3000);
    let mut b = wav(3000);
    b[100] = 8;
    let mut d = Discovery::new("in".to_string(), 1024, true, false);
    d.next_dir();
    assert!(d.offer_file("in/a.wav".to_string(), 3000, &a[..4], Some(&a)));
    assert!(d.offer_file("in/b.wav".to_string(), 3000, &b[..4], Some(&b)));
    assert_eq!(d.into_candidates().len(), 2);
}

#[test]
fn unreadable_content_skipped_with_dedup() {
    let a = wav(3000);
    let mut d = Discovery::new("in".to_string(), 1024, true, false);
    d.next_dir();
    assert!(!d.offer_file("in/a.wav".to_string(), 3000, &a[..4], None));
    assert_eq!(d.into_candidates().len(), 0);
}

#[test]
fn identical_wavs_both_kept_without_dedup() {
    let a = wav(3000);
    let b = wav(3000);
    let mut d = Discovery::new("in".to_string(), 1024, false, false);
    d.next_dir();
    assert!(!d.wants_content(3000, &a[..4]));
    assert!(d.offer_file("in/a.wav".to_string(), 3000, &a[..4], None));
    assert!(d.offer_file("in/b.wav".to_string(), 3000, &b[..4], None));
    assert_eq!(d.into_candidates().len(), 2);
}

#[test]
fn flat_walk_ignores_subdirectories() {
    let mut d = Discovery::new("in".to_string(), 0, false, false);
    assert_eq!(d.next_dir(), Some("in".to_string()));
    d.offer_dir("in/sub".to_string());
    assert_eq!(d.next_dir(), None);
    assert_eq!(d.pending.len(), 0);
}

#[test]
fn recursive_walk_lists_subdirectories() {
    let f = jpeg(10, 0);
    let mut d = Discovery::new("in".to_string(), 0, false, true);
    assert_eq!(d.next_dir(), Some("in".to_string()));
    d.offer_dir("in/sub".to_string());
    assert!(d.offer_file("in/x.jpg".to_string(), 10, &f[..4], None));
    assert_eq!(d.next_dir(), Some("in/sub".to_string()));
    assert!(d.offer_file("in/sub/y.jpg".to_string(), 10, &f[..4], None));
    assert_eq!(d.next_dir(), None);
    let c = d.into_candidates();
    assert_eq!(c.len(), 2);
    assert_eq!(c[1].path, "in/sub/y.jpg");
    assert_eq!(c[1].dir, "in/sub");
}

#[test]
fn dedup_across_directories() {
    let a = wav(2000);
    let mut d = Discovery::new("in".to_string(), 1024, true, true);
    d.next_dir();
    d.offer_dir("in/sub".to_string());
    assert!(d.offer_file("in/a.wav".to_string(), 2000, &a[..4], Some(&a)));
    d.next_dir();
    assert!(!d.offer_file("in/sub/a.wav".to_string(), 2000, &a[..4], Some(&a)));
    assert_eq!(d.into_candidates().len(), 1);
}

#[test]
fn digest_is_sha256_hex() {
    let mut set = Digests::new();
    let (h, dup) = set.is_duplicate(b"hello");
    assert_eq!(h, "2cf24dba5fb0a30e26e83b2ac5b9e29e1b161e5c1fa7425e73043362938b9824");
    assert!(!dup);
    set.insert(h.clone());
    assert_eq!(set.len(), 1);
    assert!(set.contains(&h));
    let (h2, dup2) = set.is_duplicate(b"hello");
    assert_eq!(h2, h);
    assert!(dup2);
    let (_, dup3) = set.is_duplicate(b"hellO");
    assert!(!dup3);
}
