use keyless_mux::action::{KeyInfo, KeyType, KeylessAction, KeylessRequest, KeylessRsaPadding, KeylessSignDigest};
use keyless_mux::codec::{
    decode_request, decode_response, encode_error_response, encode_request, encode_response, frame_len,
    FrameError,
};

fn all_actions() -> Vec<KeylessAction> {
    let paddings = [
        KeylessRsaPadding::Pkcs1,
        KeylessRsaPadding::Oaep,
        KeylessRsaPadding::Pss,
        KeylessRsaPadding::X931,
        KeylessRsaPadding::Raw,
    ];
    let digests = [
        KeylessSignDigest::Md5Sha1,
        KeylessSignDigest::Sha1,
        KeylessSignDigest::Sha224,
        KeylessSignDigest::Sha256,
        KeylessSignDigest::Sha384,
        KeylessSignDigest::Sha512,
    ];
    let mut v = Vec::new();
    for p in paddings {
        v.push(KeylessAction::RsaPrivateDecrypt(p));
        v.push(KeylessAction::RsaPrivateEncrypt(p));
        v.push(KeylessAction::RsaPublicDecrypt(p));
        v.push(KeylessAction::RsaPublicEncrypt(p));
        for d in digests {
            v.push(KeylessAction::RsaSign(d, p));
        }
    }
    for d in digests {
        v.push(KeylessAction::EcdsaSign(d));
    }
    v.push(KeylessAction::Ed25519Sign);
    v
}

#[test]
fn request_frame_exact_bytes() {
    let req = KeylessRequest {
        action: KeylessAction::EcdsaSign(KeylessSignDigest::Sha256),
        payload: vec![1, 2, 3],
    };
    let f = encode_request(0x0102_0304, &[0xaa, 0xbb], &req).unwrap();
    assert_eq!(
        f,
        vec![
            1, 0, 0, 19, 1, 2, 3, 4, // header
            0x01, 0, 2, 0xaa, 0xbb, // key digest
            0x11, 0, 1, 0x06, // opcode
            0x14, 0, 1, 0x04, // digest
            0x12, 0, 3, 1, 2, 3, // payload
        ]
    );
}

#[test]
fn request_round_trip_every_action() {
    let key_digest: Vec<u8> = (0u8..32).collect();
    for (i, action) in all_actions().into_iter().enumerate() {
        let payload: Vec<u8> = (0..(i as u8 + 5)).map(|b| b.wrapping_mul(7)).collect();
        let req = KeylessRequest { action, payload: payload.clone() };
        let id = 0xfedc_ba98u32.wrapping_add(i as u32);
        let f = encode_request(id, &key_digest, &req).unwrap();
        let d = decode_request(&f).unwrap();
        assert_eq!(d.id, id);
        assert_eq!(d.key_digest, key_digest);
        assert_eq!(d.action, action);
        assert_eq!(d.payload, payload);
    }
}

#[test]
fn request_round_trip_empty_payload() {
    let req = KeylessRequest { action: KeylessAction::Ed25519Sign, payload: vec![] };
    let f = encode_request(0, &[], &req).unwrap();
    let d = decode_request(&f).unwrap();
    assert_eq!(d.id, 0);
    assert!(d.key_digest.is_empty());
    assert_eq!(d.action, KeylessAction::Ed25519Sign);
    assert!(d.payload.is_empty());
}

#[test]
fn request_body_size_limit() {
    // key digest item (3 + 0), opcode item (4), payload item (3 + n)
    let fits = KeylessRequest { action: KeylessAction::Ed25519Sign, payload: vec![0; 0xffff - 10] };
    let f = encode_request(1, &[], &fits).unwrap();
    assert_eq!(f.len(), 8 + 0xffff);
    assert_eq!(decode_request(&f).unwrap().payload.len(), 0xffff - 10);
    let too_big = KeylessRequest { action: KeylessAction::Ed25519Sign, payload: vec![0; 0xffff - 9] };
    assert_eq!(encode_request(1, &[], &too_big).unwrap_err(), FrameError::BodyTooLarge);
}

#[test]
fn response_frames_exact_bytes() {
    assert_eq!(
        encode_response(7, &[9, 9]).unwrap(),
        vec![1, 0, 0, 9, 0, 0, 0, 7, 0x11, 0, 1, 0xf0, 0x12, 0, 2, 9, 9]
    );
    assert_eq!(
        encode_error_response(5, 3),
        vec![1, 0, 0, 8, 0, 0, 0, 5, 0x11, 0, 1, 0xff, 0x12, 0, 1, 3]
    );
}

#[test]
fn response_round_trip() {
    let f = encode_response(0xdead_beef, &[1, 2, 3, 4]).unwrap();
    let r = decode_response(&f).unwrap();
    assert_eq!(r.id, 0xdead_beef);
    assert_eq!(r.result, Ok(vec![1, 2, 3, 4]));
    let e = decode_response(&encode_error_response(42, 8)).unwrap();
    assert_eq!(e.id, 42);
    assert_eq!(e.result, Err(8));
}

#[test]
fn malformed_frames_are_rejected() {
    let good = encode_response(3, &[1, 2]).unwrap();
    // truncated
    assert!(decode_response(&good[..good.len() - 1]).is_none());
    // trailing byte
    let mut longer = good.clone();
    longer.push(0);
    assert!(decode_response(&longer).is_none());
    // wrong version
    let mut v2 = good.clone();
    v2[0] = 2;
    assert!(decode_response(&v2).is_none());
    // unknown opcode
    let mut op = good.clone();
    op[11] = 0x42;
    assert!(decode_response(&op).is_none());
    // a request is not a response, and the other way round
    let req = KeylessRequest { action: KeylessAction::Ed25519Sign, payload: vec![1] };
    let rf = encode_request(3, &[], &req).unwrap();
    assert!(decode_response(&rf).is_none());
    assert!(decode_request(&good).is_none());
    // unknown padding code
    let req = KeylessRequest { action: KeylessAction::RsaPublicEncrypt(KeylessRsaPadding::Oaep), payload: vec![1] };
    let mut bad = encode_request(3, &[], &req).unwrap();
    assert_eq!(bad[18], 4);
    bad[18] = 2;
    assert!(decode_request(&bad).is_none());
    assert!(decode_request(&[]).is_none());
}

#[test]
fn frame_len_from_header() {
    let f = encode_response(1, &[0; 300]).unwrap();
    assert_eq!(frame_len(&f[..8]), Some(f.len()));
    assert_eq!(frame_len(&f), Some(f.len()));
    assert_eq!(frame_len(&f[..7]), None);
    assert_eq!(frame_len(&[2, 0, 0, 0, 0, 0, 0, 0]), None);
    assert_eq!(frame_len(&[1, 0, 0xff, 0xff, 0, 0, 0, 0]), Some(8 + 0xffff));
}

#[test]
fn pipelined_stream_splits_into_frames() {
    let mut stream = Vec::new();
    for id in [5u32, 2, 9] {
        stream.extend(encode_response(id, &vec![id as u8; id as usize]).unwrap());
    }
    let mut ids = Vec::new();
    let mut pos = 0;
    while pos < stream.len() {
        let n = frame_len(&stream[pos..]).unwrap();
        let r = decode_response(&stream[pos..pos + n]).unwrap();
        assert_eq!(r.result, Ok(vec![r.id as u8; r.id as usize]));
        ids.push(r.id);
        pos += n;
    }
    assert_eq!(ids, vec![5, 2, 9]);
}

#[test]
fn request_built_then_encoded() {
    let key = KeyInfo { key_type: KeyType::Rsa, rsa_size: 256 };
    let req = KeylessRequest::new(KeylessAction::RsaPrivateDecrypt(KeylessRsaPadding::Pkcs1), vec![7; 256], &key)
        .unwrap();
    let f = encode_request(11, &[1; 32], &req).unwrap();
    let d = decode_request(&f).unwrap();
    assert_eq!(d.action, KeylessAction::RsaPrivateDecrypt(KeylessRsaPadding::Pkcs1));
    assert_eq!(d.payload, vec![7; 256]);
}
