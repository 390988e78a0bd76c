use presence::artwork::{artwork_hash, ArtworkResponse, ArtworkStore};

#[test]
fn serves_current_artwork_by_hash() {
    let mut store = ArtworkStore::new();
    let hash = blake3::hash(b"png bytes").to_hex().to_string();
    assert!(matches!(store.handle_request(hash.as_bytes()), ArtworkResponse::NotFound));
    store.set_artwork("image/png".to_string(), b"png bytes".to_vec());
    match store.handle_request(hash.as_bytes()) {
        ArtworkResponse::Found { mime, bytes } => {
            assert_eq!(mime, "image/png");
            assert_eq!(bytes, b"png bytes".to_vec());
        }
        ArtworkResponse::NotFound => panic!("not found"),
    }
    // either case of hexadecimal names the same digest
    let upper = hash.to_uppercase();
    assert!(matches!(store.handle_request(upper.as_bytes()), ArtworkResponse::Found { .. }));
}

#[test]
fn other_paths_are_not_found() {
    let mut store = ArtworkStore::new();
    store.set_artwork("image/png".to_string(), b"a".to_vec());
    let other = blake3::hash(b"b").to_hex().to_string();
    assert!(matches!(store.handle_request(other.as_bytes()), ArtworkResponse::NotFound));
    assert!(matches!(store.handle_request(b"favicon.ico"), ArtworkResponse::NotFound));
    let hash = blake3::hash(b"a").to_hex().to_string();
    assert!(matches!(store.handle_request(&hash.as_bytes()[..63]), ArtworkResponse::NotFound));
}

#[test]
fn replacing_artwork_retires_the_old_hash() {
    let mut store = ArtworkStore::new();
    store.set_artwork("image/png".to_string(), b"old".to_vec());
    store.set_artwork("image/jpeg".to_string(), b"new".to_vec());
    let old = blake3::hash(b"old").to_hex().to_string();
    let new = blake3::hash(b"new").to_hex().to_string();
    assert!(matches!(store.handle_request(old.as_bytes()), ArtworkResponse::NotFound));
    match store.handle_request(new.as_bytes()) {
        ArtworkResponse::Found { mime, .. } => assert_eq!(mime, "image/jpeg"),
        ArtworkResponse::NotFound => panic!("not found"),
    }
}

#[test]
fn hash_is_blake3_hex() {
    assert_eq!(
        artwork_hash(b""),
        "af1349b9f5f9a1a6a0404dea36dcc9499bcb25c9adc112b7cc9a93cae41f3262"
    );
    assert_eq!(artwork_hash(b"abc"), blake3::hash(b"abc").to_hex().to_string());
}
