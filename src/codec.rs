use vstd::prelude::*;
use vstd::slice::slice_subrange;

use crate::action::{
    action_digest, action_padding, KeylessAction, KeylessRequest, KeylessRsaPadding, KeylessSignDigest,
};

verus! {

/// Frame layout: an eight byte header {major, minor, body length (u16, big
/// endian), correlation id (u32, big endian)} and a body of items, each
/// {tag, value length (u16, big endian), value}.
pub const HEADER_LEN: usize = 8;
pub const VERSION_MAJOR: u8 = 1;
pub const VERSION_MINOR: u8 = 0;
pub const MAX_BODY_LEN: usize = 0xffff;

pub const TAG_KEY_DIGEST: u8 = 0x01;
pub const TAG_OPCODE: u8 = 0x11;
pub const TAG_PAYLOAD: u8 = 0x12;
pub const TAG_PADDING: u8 = 0x13;
pub const TAG_HASH: u8 = 0x14;

pub const OP_RSA_PRIVATE_DECRYPT: u8 = 0x01;
pub const OP_RSA_PRIVATE_ENCRYPT: u8 = 0x02;
pub const OP_RSA_PUBLIC_DECRYPT: u8 = 0x03;
pub const OP_RSA_PUBLIC_ENCRYPT: u8 = 0x04;
pub const OP_RSA_SIGN: u8 = 0x05;
pub const OP_ECDSA_SIGN: u8 = 0x06;
pub const OP_ED25519_SIGN: u8 = 0x07;
pub const OP_RESPONSE: u8 = 0xf0;
pub const OP_ERROR: u8 = 0xff;

pub open spec fn be16(n: nat) -> Seq<u8> {
    seq![(n / 256) as u8, (n % 256) as u8]
}

pub open spec fn be32(x: u32) -> Seq<u8> {
    seq![(x >> 24u32) as u8, (x >> 16u32) as u8, (x >> 8u32) as u8, x as u8]
}

pub open spec fn u32_of(b0: u8, b1: u8, b2: u8, b3: u8) -> u32 {
    ((b0 as u32) << 24u32) | ((b1 as u32) << 16u32) | ((b2 as u32) << 8u32) | (b3 as u32)
}

/// One tagged, length-prefixed item.
pub open spec fn item(tag: u8, v: Seq<u8>) -> Seq<u8> {
    seq![tag] + be16(v.len()) + v
}

/// A whole frame: header then body.
pub open spec fn frame(id: u32, body: Seq<u8>) -> Seq<u8> {
    seq![VERSION_MAJOR, VERSION_MINOR] + be16(body.len()) + be32(id) + body
}

pub open spec fn padding_code(p: KeylessRsaPadding) -> u8 {
    match p {
        KeylessRsaPadding::Pkcs1 => 1,
        KeylessRsaPadding::Raw => 3,
        KeylessRsaPadding::Oaep => 4,
        KeylessRsaPadding::X931 => 5,
        KeylessRsaPadding::Pss => 6,
    }
}

pub open spec fn padding_of_code(c: u8) -> Option<KeylessRsaPadding> {
    if c == 1 {
        Some(KeylessRsaPadding::Pkcs1)
    } else if c == 3 {
        Some(KeylessRsaPadding::Raw)
    } else if c == 4 {
        Some(KeylessRsaPadding::Oaep)
    } else if c == 5 {
        Some(KeylessRsaPadding::X931)
    } else if c == 6 {
        Some(KeylessRsaPadding::Pss)
    } else {
        None
    }
}

pub open spec fn digest_code(d: KeylessSignDigest) -> u8 {
    match d {
        KeylessSignDigest::Md5Sha1 => 1,
        KeylessSignDigest::Sha1 => 2,
        KeylessSignDigest::Sha224 => 3,
        KeylessSignDigest::Sha256 => 4,
        KeylessSignDigest::Sha384 => 5,
        KeylessSignDigest::Sha512 => 6,
    }
}

pub open spec fn digest_of_code(c: u8) -> Option<KeylessSignDigest> {
    if c == 1 {
        Some(KeylessSignDigest::Md5Sha1)
    } else if c == 2 {
        Some(KeylessSignDigest::Sha1)
    } else if c == 3 {
        Some(KeylessSignDigest::Sha224)
    } else if c == 4 {
        Some(KeylessSignDigest::Sha256)
    } else if c == 5 {
        Some(KeylessSignDigest::Sha384)
    } else if c == 6 {
        Some(KeylessSignDigest::Sha512)
    } else {
        None
    }
}

pub open spec fn opcode(a: KeylessAction) -> u8 {
    match a {
        KeylessAction::RsaPrivateDecrypt(_) => OP_RSA_PRIVATE_DECRYPT,
        KeylessAction::RsaPrivateEncrypt(_) => OP_RSA_PRIVATE_ENCRYPT,
        KeylessAction::RsaPublicDecrypt(_) => OP_RSA_PUBLIC_DECRYPT,
        KeylessAction::RsaPublicEncrypt(_) => OP_RSA_PUBLIC_ENCRYPT,
        KeylessAction::RsaSign(_, _) => OP_RSA_SIGN,
        KeylessAction::EcdsaSign(_) => OP_ECDSA_SIGN,
        KeylessAction::Ed25519Sign => OP_ED25519_SIGN,
    }
}

pub open spec fn padding_items(a: KeylessAction) -> Seq<u8> {
    match action_padding(a) {
        Some(p) => item(TAG_PADDING, seq![padding_code(p)]),
        None => Seq::empty(),
    }
}

pub open spec fn digest_items(a: KeylessAction) -> Seq<u8> {
    match action_digest(a) {
        Some(d) => item(TAG_HASH, seq![digest_code(d)]),
        None => Seq::empty(),
    }
}

/// The items that name an action: opcode, then padding, then digest.
pub open spec fn action_items(a: KeylessAction) -> Seq<u8> {
    item(TAG_OPCODE, seq![opcode(a)]) + padding_items(a) + digest_items(a)
}

pub open spec fn request_body(key_digest: Seq<u8>, a: KeylessAction, payload: Seq<u8>) -> Seq<u8> {
    item(TAG_KEY_DIGEST, key_digest) + action_items(a) + item(TAG_PAYLOAD, payload)
}

pub open spec fn request_frame(id: u32, key_digest: Seq<u8>, a: KeylessAction, payload: Seq<u8>) -> Seq<u8> {
    frame(id, request_body(key_digest, a, payload))
}

pub open spec fn response_body(outcome: Result<Seq<u8>, u8>) -> Seq<u8> {
    match outcome {
        Ok(data) => item(TAG_OPCODE, seq![OP_RESPONSE]) + item(TAG_PAYLOAD, data),
        Err(code) => item(TAG_OPCODE, seq![OP_ERROR]) + item(TAG_PAYLOAD, seq![code]),
    }
}

pub open spec fn response_frame(id: u32, outcome: Result<Seq<u8>, u8>) -> Seq<u8> {
    frame(id, response_body(outcome))
}

/// The value of the item with `tag` that starts at `pos`, and where it ends.
pub open spec fn item_at(b: Seq<u8>, pos: int, tag: u8) -> Option<(Seq<u8>, int)> {
    if 0 <= pos && pos + 3 <= b.len() && b[pos] == tag {
        let n = b[pos + 1] as int * 256 + b[pos + 2] as int;
        if pos + 3 + n <= b.len() {
            Some((b.subrange(pos + 3, pos + 3 + n), pos + 3 + n))
        } else {
            None
        }
    } else {
        None
    }
}

pub open spec fn byte_item_at(b: Seq<u8>, pos: int, tag: u8) -> Option<(u8, int)> {
    match item_at(b, pos, tag) {
        Some((v, next)) => if v.len() == 1 {
            Some((v[0], next))
        } else {
            None
        },
        None => None,
    }
}

pub open spec fn padding_at(b: Seq<u8>, pos: int) -> Option<(KeylessRsaPadding, int)> {
    match byte_item_at(b, pos, TAG_PADDING) {
        Some((c, next)) => match padding_of_code(c) {
            Some(p) => Some((p, next)),
            None => None,
        },
        None => None,
    }
}

pub open spec fn digest_at(b: Seq<u8>, pos: int) -> Option<(KeylessSignDigest, int)> {
    match byte_item_at(b, pos, TAG_HASH) {
        Some((c, next)) => match digest_of_code(c) {
            Some(d) => Some((d, next)),
            None => None,
        },
        None => None,
    }
}

pub open spec fn padded_action(op: u8, p: KeylessRsaPadding) -> KeylessAction {
    if op == OP_RSA_PRIVATE_DECRYPT {
        KeylessAction::RsaPrivateDecrypt(p)
    } else if op == OP_RSA_PRIVATE_ENCRYPT {
        KeylessAction::RsaPrivateEncrypt(p)
    } else if op == OP_RSA_PUBLIC_DECRYPT {
        KeylessAction::RsaPublicDecrypt(p)
    } else {
        KeylessAction::RsaPublicEncrypt(p)
    }
}

/// The action whose items start at `pos`, and where they end.
pub open spec fn action_at(b: Seq<u8>, pos: int) -> Option<(KeylessAction, int)> {
    match byte_item_at(b, pos, TAG_OPCODE) {
        None => None,
        Some((op, p1)) => if op == OP_ED25519_SIGN {
            Some((KeylessAction::Ed25519Sign, p1))
        } else if op == OP_ECDSA_SIGN {
            match digest_at(b, p1) {
                Some((d, p2)) => Some((KeylessAction::EcdsaSign(d), p2)),
                None => None,
            }
        } else if op == OP_RSA_SIGN {
            match padding_at(b, p1) {
                Some((p, p2)) => match digest_at(b, p2) {
                    Some((d, p3)) => Some((KeylessAction::RsaSign(d, p), p3)),
                    None => None,
                },
                None => None,
            }
        } else if OP_RSA_PRIVATE_DECRYPT <= op <= OP_RSA_PUBLIC_ENCRYPT {
            match padding_at(b, p1) {
                Some((p, p2)) => Some((padded_action(op, p), p2)),
                None => None,
            }
        } else {
            None
        },
    }
}

/// The correlation id and body of a frame whose header is well formed and
/// whose length matches the header.
pub open spec fn frame_parts(b: Seq<u8>) -> Option<(u32, Seq<u8>)> {
    if b.len() >= 8 && b[0] == VERSION_MAJOR && b[1] == VERSION_MINOR && b[2] as int * 256
        + b[3] as int == b.len() - 8 {
        Some((u32_of(b[4], b[5], b[6], b[7]), b.subrange(8, b.len() as int)))
    } else {
        None
    }
}

/// What a request frame holds: id, key digest, action and payload.
pub open spec fn parse_request(b: Seq<u8>) -> Option<(u32, Seq<u8>, KeylessAction, Seq<u8>)> {
    match frame_parts(b) {
        None => None,
        Some((id, body)) => match item_at(body, 0, TAG_KEY_DIGEST) {
            None => None,
            Some((fp, p1)) => match action_at(body, p1) {
                None => None,
                Some((a, p2)) => match item_at(body, p2, TAG_PAYLOAD) {
                    None => None,
                    Some((pl, p3)) => if p3 == body.len() {
                        Some((id, fp, a, pl))
                    } else {
                        None
                    },
                },
            },
        },
    }
}

/// What a response frame holds: id and either result bytes or an error code.
pub open spec fn parse_response(b: Seq<u8>) -> Option<(u32, Result<Seq<u8>, u8>)> {
    match frame_parts(b) {
        None => None,
        Some((id, body)) => match byte_item_at(body, 0, TAG_OPCODE) {
            None => None,
            Some((op, p1)) => if op == OP_RESPONSE {
                match item_at(body, p1, TAG_PAYLOAD) {
                    Some((data, p2)) => if p2 == body.len() {
                        Some((id, Ok(data)))
                    } else {
                        None
                    },
                    None => None,
                }
            } else if op == OP_ERROR {
                match byte_item_at(body, p1, TAG_PAYLOAD) {
                    Some((code, p2)) => if p2 == body.len() {
                        Some((id, Err(code)))
                    } else {
                        None
                    },
                    None => None,
                }
            } else {
                None
            },
        },
    }
}

proof fn lemma_be16(n: nat)
    requires
        n <= 0xffff,
    ensures
        be16(n)[0] as int * 256 + be16(n)[1] as int == n,
{
}

proof fn lemma_u32_round_trip(x: u32)
    ensures
        u32_of(be32(x)[0], be32(x)[1], be32(x)[2], be32(x)[3]) == x,
{
    assert((((((x >> 24u32) as u8) as u32) << 24u32) | ((((x >> 16u32) as u8) as u32) << 16u32)
        | ((((x >> 8u32) as u8) as u32) << 8u32) | ((x as u8) as u32)) == x) by (bit_vector);
}

/// An item placed at `pos` is read back by `item_at`.
proof fn lemma_item_at(b: Seq<u8>, pos: int, tag: u8, v: Seq<u8>)
    requires
        0 <= pos,
        v.len() <= 0xffff,
        pos + item(tag, v).len() <= b.len(),
        b.subrange(pos, pos + item(tag, v).len()) == item(tag, v),
    ensures
        item_at(b, pos, tag) == Some((v, pos + item(tag, v).len())),
{
    let it = item(tag, v);
    assert(it.len() == 3 + v.len());
    assert(b[pos] == it[0]);
    assert(b[pos + 1] == it[1]);
    assert(b[pos + 2] == it[2]);
    lemma_be16(v.len());
    assert(it.subrange(3, it.len() as int) =~= v);
    assert(b.subrange(pos + 3, pos + 3 + v.len()) =~= it.subrange(3, it.len() as int));
}

proof fn lemma_byte_item_at(b: Seq<u8>, pos: int, tag: u8, c: u8)
    requires
        0 <= pos,
        pos + 4 <= b.len(),
        b.subrange(pos, pos + 4) == item(tag, seq![c]),
    ensures
        byte_item_at(b, pos, tag) == Some((c, pos + 4)),
{
    lemma_item_at(b, pos, tag, seq![c]);
}

/// The items of an action placed at `pos` are read back by `action_at`.
proof fn lemma_action_at(b: Seq<u8>, pos: int, a: KeylessAction)
    requires
        0 <= pos,
        pos + action_items(a).len() <= b.len(),
        b.subrange(pos, pos + action_items(a).len()) == action_items(a),
    ensures
        action_at(b, pos) == Some((a, pos + action_items(a).len())),
{
    let ai = action_items(a);
    let op_item = item(TAG_OPCODE, seq![opcode(a)]);
    assert(b.subrange(pos, pos + 4) =~= ai.subrange(0, 4));
    assert(ai.subrange(0, 4) =~= op_item);
    lemma_byte_item_at(b, pos, TAG_OPCODE, opcode(a));
    match action_padding(a) {
        Some(p) => {
            let pi = item(TAG_PADDING, seq![padding_code(p)]);
            assert(b.subrange(pos + 4, pos + 8) =~= ai.subrange(4, 8));
            assert(ai.subrange(4, 8) =~= pi);
            lemma_byte_item_at(b, pos + 4, TAG_PADDING, padding_code(p));
            match action_digest(a) {
                Some(d) => {
                    let di = item(TAG_HASH, seq![digest_code(d)]);
                    assert(b.subrange(pos + 8, pos + 12) =~= ai.subrange(8, 12));
                    assert(ai.subrange(8, 12) =~= di);
                    lemma_byte_item_at(b, pos + 8, TAG_HASH, digest_code(d));
                },
                None => {},
            }
        },
        None => {
            match action_digest(a) {
                Some(d) => {
                    let di = item(TAG_HASH, seq![digest_code(d)]);
                    assert(b.subrange(pos + 4, pos + 8) =~= ai.subrange(4, 8));
                    assert(ai.subrange(4, 8) =~= di);
                    lemma_byte_item_at(b, pos + 4, TAG_HASH, digest_code(d));
                },
                None => {},
            }
        },
    }
}

proof fn lemma_frame_parts(id: u32, body: Seq<u8>)
    requires
        body.len() <= 0xffff,
    ensures
        frame_parts(frame(id, body)) == Some((id, body)),
{
    let f = frame(id, body);
    lemma_be16(body.len());
    lemma_u32_round_trip(id);
    assert(f.subrange(8, f.len() as int) =~= body);
}

/// Decoding an encoded request gives back its id, key digest, action and
/// payload, for every action, padding and digest.
pub proof fn lemma_request_round_trip(
    id: u32,
    key_digest: Seq<u8>,
    a: KeylessAction,
    payload: Seq<u8>,
)
    requires
        request_body(key_digest, a, payload).len() <= MAX_BODY_LEN,
    ensures
        parse_request(request_frame(id, key_digest, a, payload)) == Some((id, key_digest, a, payload)),
{
    let body = request_body(key_digest, a, payload);
    lemma_frame_parts(id, body);
    let i1 = item(TAG_KEY_DIGEST, key_digest);
    let ai = action_items(a);
    let i3 = item(TAG_PAYLOAD, payload);
    assert(body.subrange(0, i1.len() as int) =~= i1);
    lemma_item_at(body, 0, TAG_KEY_DIGEST, key_digest);
    assert(body.subrange(i1.len() as int, (i1.len() + ai.len()) as int) =~= ai);
    lemma_action_at(body, i1.len() as int, a);
    assert(body.subrange((i1.len() + ai.len()) as int, body.len() as int) =~= i3);
    lemma_item_at(body, (i1.len() + ai.len()) as int, TAG_PAYLOAD, payload);
}

/// Decoding an encoded response gives back its id and outcome.
pub proof fn lemma_response_round_trip(id: u32, outcome: Result<Seq<u8>, u8>)
    requires
        response_body(outcome).len() <= MAX_BODY_LEN,
    ensures
        parse_response(response_frame(id, outcome)) == Some((id, outcome)),
{
    let body = response_body(outcome);
    lemma_frame_parts(id, body);
    match outcome {
        Ok(data) => {
            let i1 = item(TAG_OPCODE, seq![OP_RESPONSE]);
            assert(body.subrange(0, 4) =~= i1);
            lemma_byte_item_at(body, 0, TAG_OPCODE, OP_RESPONSE);
            assert(body.subrange(4, body.len() as int) =~= item(TAG_PAYLOAD, data));
            lemma_item_at(body, 4, TAG_PAYLOAD, data);
        },
        Err(code) => {
            let i1 = item(TAG_OPCODE, seq![OP_ERROR]);
            assert(body.subrange(0, 4) =~= i1);
            lemma_byte_item_at(body, 0, TAG_OPCODE, OP_ERROR);
            assert(body.subrange(4, 8) =~= item(TAG_PAYLOAD, seq![code]));
            lemma_byte_item_at(body, 4, TAG_PAYLOAD, code);
        },
    }
}

proof fn lemma_be16_inverse(hi: u8, lo: u8)
    ensures
        be16((hi as int * 256 + lo as int) as nat) == seq![hi, lo],
{
    let n = hi as int * 256 + lo as int;
    assert(n / 256 == hi as int);
    assert(n % 256 == lo as int);
    assert(be16(n as nat) =~= seq![hi, lo]);
}

proof fn lemma_u32_inverse(b0: u8, b1: u8, b2: u8, b3: u8)
    ensures
        be32(u32_of(b0, b1, b2, b3)) == seq![b0, b1, b2, b3],
{
    let x = u32_of(b0, b1, b2, b3);
    assert((((((b0 as u32) << 24u32) | ((b1 as u32) << 16u32) | ((b2 as u32) << 8u32) | (b3 as u32))
        >> 24u32) as u8) == b0) by (bit_vector);
    assert((((((b0 as u32) << 24u32) | ((b1 as u32) << 16u32) | ((b2 as u32) << 8u32) | (b3 as u32))
        >> 16u32) as u8) == b1) by (bit_vector);
    assert((((((b0 as u32) << 24u32) | ((b1 as u32) << 16u32) | ((b2 as u32) << 8u32) | (b3 as u32))
        >> 8u32) as u8) == b2) by (bit_vector);
    assert(((((b0 as u32) << 24u32) | ((b1 as u32) << 16u32) | ((b2 as u32) << 8u32) | (b3 as u32))
        as u8) == b3) by (bit_vector);
    assert(be32(x) =~= seq![b0, b1, b2, b3]);
}

/// What `item_at` reads is exactly one item.
proof fn lemma_item_at_inverse(b: Seq<u8>, pos: int, tag: u8)
    requires
        item_at(b, pos, tag) is Some,
    ensures
        ({
            let (v, next) = item_at(b, pos, tag)->Some_0;
            &&& v.len() <= 0xffff
            &&& pos <= next <= b.len()
            &&& b.subrange(pos, next) == item(tag, v)
        }),
{
    let (v, next) = item_at(b, pos, tag)->Some_0;
    lemma_be16_inverse(b[pos + 1], b[pos + 2]);
    assert(b.subrange(pos, next) =~= item(tag, v));
}

proof fn lemma_byte_item_at_inverse(b: Seq<u8>, pos: int, tag: u8)
    requires
        byte_item_at(b, pos, tag) is Some,
    ensures
        ({
            let (c, next) = byte_item_at(b, pos, tag)->Some_0;
            &&& pos <= next <= b.len()
            &&& b.subrange(pos, next) == item(tag, seq![c])
        }),
{
    lemma_item_at_inverse(b, pos, tag);
    let (v, next) = item_at(b, pos, tag)->Some_0;
    assert(v =~= seq![v[0]]);
}

/// What `action_at` reads is exactly the items of the action it returns.
proof fn lemma_action_at_inverse(b: Seq<u8>, pos: int)
    requires
        action_at(b, pos) is Some,
    ensures
        ({
            let (a, next) = action_at(b, pos)->Some_0;
            &&& pos <= next <= b.len()
            &&& b.subrange(pos, next) == action_items(a)
        }),
{
    let (a, next) = action_at(b, pos)->Some_0;
    lemma_byte_item_at_inverse(b, pos, TAG_OPCODE);
    let (op, p1) = byte_item_at(b, pos, TAG_OPCODE)->Some_0;
    assert(opcode(a) == op);
    let head = b.subrange(pos, p1);
    if op == OP_ED25519_SIGN {
        assert(b.subrange(pos, next) =~= action_items(a));
    } else if op == OP_ECDSA_SIGN {
        lemma_byte_item_at_inverse(b, p1, TAG_HASH);
        let (c, p2) = byte_item_at(b, p1, TAG_HASH)->Some_0;
        assert(digest_code(digest_of_code(c)->Some_0) == c);
        assert(b.subrange(pos, next) =~= head + b.subrange(p1, p2));
        assert(b.subrange(pos, next) =~= action_items(a));
    } else if op == OP_RSA_SIGN {
        lemma_byte_item_at_inverse(b, p1, TAG_PADDING);
        let (c, p2) = byte_item_at(b, p1, TAG_PADDING)->Some_0;
        assert(padding_code(padding_of_code(c)->Some_0) == c);
        lemma_byte_item_at_inverse(b, p2, TAG_HASH);
        let (c2, p3) = byte_item_at(b, p2, TAG_HASH)->Some_0;
        assert(digest_code(digest_of_code(c2)->Some_0) == c2);
        assert(b.subrange(pos, next) =~= head + b.subrange(p1, p2) + b.subrange(p2, p3));
        assert(b.subrange(pos, next) =~= action_items(a));
    } else {
        lemma_byte_item_at_inverse(b, p1, TAG_PADDING);
        let (c, p2) = byte_item_at(b, p1, TAG_PADDING)->Some_0;
        assert(padding_code(padding_of_code(c)->Some_0) == c);
        assert(b.subrange(pos, next) =~= head + b.subrange(p1, p2));
        assert(b.subrange(pos, next) =~= action_items(a));
    }
}

proof fn lemma_frame_parts_inverse(b: Seq<u8>)
    requires
        frame_parts(b) is Some,
    ensures
        b == frame(frame_parts(b)->Some_0.0, frame_parts(b)->Some_0.1),
{
    let (id, body) = frame_parts(b)->Some_0;
    lemma_be16_inverse(b[2], b[3]);
    lemma_u32_inverse(b[4], b[5], b[6], b[7]);
    assert(b =~= frame(id, body));
}

/// Every frame that the request decoder accepts is exactly the encoding of
/// what it returns: the layout leaves no freedom, so decoding and encoding
/// are inverse.
pub proof fn lemma_request_canonical(b: Seq<u8>)
    requires
        parse_request(b) is Some,
    ensures
        ({
            let (id, fp, a, pl) = parse_request(b)->Some_0;
            &&& b == request_frame(id, fp, a, pl)
            &&& request_body(fp, a, pl).len() <= MAX_BODY_LEN
        }),
{
    let (id, body) = frame_parts(b)->Some_0;
    lemma_frame_parts_inverse(b);
    lemma_item_at_inverse(body, 0, TAG_KEY_DIGEST);
    let (fp, p1) = item_at(body, 0, TAG_KEY_DIGEST)->Some_0;
    lemma_action_at_inverse(body, p1);
    let (a, p2) = action_at(body, p1)->Some_0;
    lemma_item_at_inverse(body, p2, TAG_PAYLOAD);
    let (pl, p3) = item_at(body, p2, TAG_PAYLOAD)->Some_0;
    assert(body =~= body.subrange(0, p1) + body.subrange(p1, p2) + body.subrange(p2, p3));
    assert(body =~= request_body(fp, a, pl));
}

/// Every frame that the response decoder accepts is exactly the encoding of
/// what it returns.
pub proof fn lemma_response_canonical(b: Seq<u8>)
    requires
        parse_response(b) is Some,
    ensures
        ({
            let (id, outcome) = parse_response(b)->Some_0;
            &&& b == response_frame(id, outcome)
            &&& response_body(outcome).len() <= MAX_BODY_LEN
        }),
{
    let (id, body) = frame_parts(b)->Some_0;
    lemma_frame_parts_inverse(b);
    lemma_byte_item_at_inverse(body, 0, TAG_OPCODE);
    let (op, p1) = byte_item_at(body, 0, TAG_OPCODE)->Some_0;
    if op == OP_RESPONSE {
        lemma_item_at_inverse(body, p1, TAG_PAYLOAD);
        let (data, p2) = item_at(body, p1, TAG_PAYLOAD)->Some_0;
        assert(body =~= body.subrange(0, p1) + body.subrange(p1, p2));
        assert(body =~= response_body(Ok(data)));
    } else {
        lemma_byte_item_at_inverse(body, p1, TAG_PAYLOAD);
        let (code, p2) = byte_item_at(body, p1, TAG_PAYLOAD)->Some_0;
        assert(body =~= body.subrange(0, p1) + body.subrange(p1, p2));
        assert(body =~= response_body(Err(code)));
    }
}

/// Why a frame cannot be built.
#[derive(Clone, Copy, Debug, PartialEq, Eq, Structural)]
pub enum FrameError {
    BodyTooLarge,
}

/// A request as read off the wire.
pub struct DecodedRequest {
    pub id: u32,
    pub key_digest: Vec<u8>,
    pub action: KeylessAction,
    pub payload: Vec<u8>,
}

/// A response as read off the wire: result bytes, or a backend error code.
pub struct KeylessResponse {
    pub id: u32,
    pub result: Result<Vec<u8>, u8>,
}

pub open spec fn outcome_view(r: Result<Vec<u8>, u8>) -> Result<Seq<u8>, u8> {
    match r {
        Ok(v) => Ok(v@),
        Err(c) => Err(c),
    }
}

/// The total length of the frame that a header announces.
pub open spec fn announced_len(h: Seq<u8>) -> Option<nat> {
    if h.len() >= 8 && h[0] == VERSION_MAJOR && h[1] == VERSION_MINOR {
        Some((8 + h[2] as int * 256 + h[3] as int) as nat)
    } else {
        None
    }
}

/// A well formed frame announces its own length in its header, so a reader
/// of a byte stream knows where each frame ends.
pub proof fn lemma_frame_announces_len(b: Seq<u8>)
    requires
        frame_parts(b) is Some,
    ensures
        announced_len(b) == Some(b.len()),
        announced_len(b.subrange(0, 8)) == Some(b.len()),
{
}

fn push_be16(out: &mut Vec<u8>, n: usize)
    requires
        n <= 0xffff,
    ensures
        final(out)@ == old(out)@ + be16(n as nat),
{
    out.push((n / 256) as u8);
    out.push((n % 256) as u8);
    assert(out@ =~= old(out)@ + be16(n as nat));
}

fn push_bytes(out: &mut Vec<u8>, v: &[u8])
    ensures
        final(out)@ == old(out)@ + v@,
{
    let mut i: usize = 0;
    while i < v.len()
        invariant
            0 <= i <= v@.len(),
            out@ == old(out)@ + v@.subrange(0, i as int),
        decreases v@.len() - i,
    {
        out.push(v[i]);
        i = i + 1;
        assert(out@ =~= old(out)@ + v@.subrange(0, i as int));
    }
    assert(v@.subrange(0, v@.len() as int) =~= v@);
}

fn push_item(out: &mut Vec<u8>, tag: u8, v: &[u8])
    requires
        v@.len() <= 0xffff,
    ensures
        final(out)@ == old(out)@ + item(tag, v@),
{
    out.push(tag);
    push_be16(out, v.len());
    push_bytes(out, v);
    assert(out@ =~= old(out)@ + item(tag, v@));
}

fn push_byte_item(out: &mut Vec<u8>, tag: u8, c: u8)
    ensures
        final(out)@ == old(out)@ + item(tag, seq![c]),
{
    out.push(tag);
    push_be16(out, 1);
    out.push(c);
    assert(out@ =~= old(out)@ + item(tag, seq![c]));
}

fn padding_code_of(p: KeylessRsaPadding) -> (c: u8)
    ensures
        c == padding_code(p),
{
    match p {
        KeylessRsaPadding::Pkcs1 => 1,
        KeylessRsaPadding::Raw => 3,
        KeylessRsaPadding::Oaep => 4,
        KeylessRsaPadding::X931 => 5,
        KeylessRsaPadding::Pss => 6,
    }
}

fn digest_code_of(d: KeylessSignDigest) -> (c: u8)
    ensures
        c == digest_code(d),
{
    match d {
        KeylessSignDigest::Md5Sha1 => 1,
        KeylessSignDigest::Sha1 => 2,
        KeylessSignDigest::Sha224 => 3,
        KeylessSignDigest::Sha256 => 4,
        KeylessSignDigest::Sha384 => 5,
        KeylessSignDigest::Sha512 => 6,
    }
}

fn push_action(out: &mut Vec<u8>, a: KeylessAction)
    ensures
        final(out)@ == old(out)@ + action_items(a),
{
    let ghost start = out@;
    match a {
        KeylessAction::RsaPrivateDecrypt(p) => {
            push_byte_item(out, TAG_OPCODE, OP_RSA_PRIVATE_DECRYPT);
            push_byte_item(out, TAG_PADDING, padding_code_of(p));
        },
        KeylessAction::RsaPrivateEncrypt(p) => {
            push_byte_item(out, TAG_OPCODE, OP_RSA_PRIVATE_ENCRYPT);
            push_byte_item(out, TAG_PADDING, padding_code_of(p));
        },
        KeylessAction::RsaPublicDecrypt(p) => {
            push_byte_item(out, TAG_OPCODE, OP_RSA_PUBLIC_DECRYPT);
            push_byte_item(out, TAG_PADDING, padding_code_of(p));
        },
        KeylessAction::RsaPublicEncrypt(p) => {
            push_byte_item(out, TAG_OPCODE, OP_RSA_PUBLIC_ENCRYPT);
            push_byte_item(out, TAG_PADDING, padding_code_of(p));
        },
        KeylessAction::RsaSign(d, p) => {
            push_byte_item(out, TAG_OPCODE, OP_RSA_SIGN);
            push_byte_item(out, TAG_PADDING, padding_code_of(p));
            push_byte_item(out, TAG_HASH, digest_code_of(d));
        },
        KeylessAction::EcdsaSign(d) => {
            push_byte_item(out, TAG_OPCODE, OP_ECDSA_SIGN);
            push_byte_item(out, TAG_HASH, digest_code_of(d));
        },
        KeylessAction::Ed25519Sign => {
            push_byte_item(out, TAG_OPCODE, OP_ED25519_SIGN);
        },
    }
    assert(out@ =~= start + action_items(a));
}

fn finish_frame(id: u32, body: &[u8]) -> (r: Vec<u8>)
    requires
        body@.len() <= MAX_BODY_LEN,
    ensures
        r@ == frame(id, body@),
{
    let mut out: Vec<u8> = Vec::new();
    out.push(VERSION_MAJOR);
    out.push(VERSION_MINOR);
    push_be16(&mut out, body.len());
    out.push((id >> 24u32) as u8);
    out.push((id >> 16u32) as u8);
    out.push((id >> 8u32) as u8);
    out.push(id as u8);
    push_bytes(&mut out, body);
    assert(out@ =~= frame(id, body@));
    out
}

/// Encodes a request under a correlation id, with the digest of the key that
/// the backend should use.
pub fn encode_request(id: u32, key_digest: &[u8], req: &KeylessRequest) -> (r: Result<Vec<u8>, FrameError>)
    ensures
        r is Ok <==> request_body(key_digest@, req.action, req.payload@).len() <= MAX_BODY_LEN,
        r matches Ok(f) ==> f@ == request_frame(id, key_digest@, req.action, req.payload@),
        r matches Err(e) ==> e == FrameError::BodyTooLarge,
{
    if key_digest.len() > MAX_BODY_LEN || req.payload.len() > MAX_BODY_LEN {
        return Err(FrameError::BodyTooLarge);
    }
    let mut body: Vec<u8> = Vec::new();
    push_item(&mut body, TAG_KEY_DIGEST, key_digest);
    push_action(&mut body, req.action);
    push_item(&mut body, TAG_PAYLOAD, req.payload.as_slice());
    assert(body@ =~= request_body(key_digest@, req.action, req.payload@));
    if body.len() > MAX_BODY_LEN {
        return Err(FrameError::BodyTooLarge);
    }
    Ok(finish_frame(id, body.as_slice()))
}

/// Encodes a successful response carrying result bytes.
pub fn encode_response(id: u32, data: &[u8]) -> (r: Result<Vec<u8>, FrameError>)
    ensures
        r is Ok <==> response_body(Ok(data@)).len() <= MAX_BODY_LEN,
        r matches Ok(f) ==> f@ == response_frame(id, Ok(data@)),
        r matches Err(e) ==> e == FrameError::BodyTooLarge,
{
    if data.len() > MAX_BODY_LEN - 7 {
        assert(response_body(Ok(data@)).len() == 7 + data@.len());
        return Err(FrameError::BodyTooLarge);
    }
    let mut body: Vec<u8> = Vec::new();
    push_byte_item(&mut body, TAG_OPCODE, OP_RESPONSE);
    push_item(&mut body, TAG_PAYLOAD, data);
    assert(body@ =~= response_body(Ok(data@)));
    Ok(finish_frame(id, body.as_slice()))
}

/// Encodes a response carrying a backend error code.
pub fn encode_error_response(id: u32, code: u8) -> (r: Vec<u8>)
    ensures
        r@ == response_frame(id, Err(code)),
{
    let mut body: Vec<u8> = Vec::new();
    push_byte_item(&mut body, TAG_OPCODE, OP_ERROR);
    push_byte_item(&mut body, TAG_PAYLOAD, code);
    assert(body@ =~= response_body(Err(code)));
    finish_frame(id, body.as_slice())
}

/// The total length of the frame that starts with `header`, if the header
/// is complete and of a known version.
pub fn frame_len(header: &[u8]) -> (r: Option<usize>)
    ensures
        match announced_len(header@) {
            Some(n) => r == Some(n as usize),
            None => r is None,
        },
{
    if header.len() < HEADER_LEN || header[0] != VERSION_MAJOR || header[1] != VERSION_MINOR {
        return None;
    }
    Some(HEADER_LEN + header[2] as usize * 256 + header[3] as usize)
}

fn read_frame<'a>(b: &'a [u8]) -> (r: Option<(u32, &'a [u8])>)
    ensures
        match frame_parts(b@) {
            Some((id, body)) => r matches Some((i, x)) && i == id && x@ == body,
            None => r is None,
        },
{
    if b.len() < HEADER_LEN || b[0] != VERSION_MAJOR || b[1] != VERSION_MINOR {
        return None;
    }
    if b[2] as usize * 256 + b[3] as usize != b.len() - HEADER_LEN {
        return None;
    }
    let id = ((b[4] as u32) << 24u32) | ((b[5] as u32) << 16u32) | ((b[6] as u32) << 8u32) | (
    b[7] as u32);
    Some((id, slice_subrange(b, HEADER_LEN, b.len())))
}

fn read_item(b: &[u8], pos: usize, tag: u8) -> (r: Option<(usize, usize)>)
    ensures
        match item_at(b@, pos as int, tag) {
            Some((v, next)) => r matches Some((s, e)) && s <= e <= b@.len() && e == next && v
                == b@.subrange(s as int, e as int),
            None => r is None,
        },
{
    if pos > b.len() || b.len() - pos < 3 {
        return None;
    }
    if b[pos] != tag {
        return None;
    }
    let n = b[pos + 1] as usize * 256 + b[pos + 2] as usize;
    let start = pos + 3;
    if b.len() - start < n {
        return None;
    }
    Some((start, start + n))
}

fn read_byte_item(b: &[u8], pos: usize, tag: u8) -> (r: Option<(u8, usize)>)
    ensures
        match byte_item_at(b@, pos as int, tag) {
            Some((c, next)) => r matches Some((x, e)) && x == c && e == next && e <= b@.len(),
            None => r is None,
        },
{
    match read_item(b, pos, tag) {
        Some((s, e)) => {
            if e - s == 1 {
                Some((b[s], e))
            } else {
                None
            }
        },
        None => None,
    }
}

fn read_padding(b: &[u8], pos: usize) -> (r: Option<(KeylessRsaPadding, usize)>)
    ensures
        match padding_at(b@, pos as int) {
            Some((p, next)) => r matches Some((x, e)) && x == p && e == next && e <= b@.len(),
            None => r is None,
        },
{
    match read_byte_item(b, pos, TAG_PADDING) {
        Some((c, e)) => {
            if c == 1 {
                Some((KeylessRsaPadding::Pkcs1, e))
            } else if c == 3 {
                Some((KeylessRsaPadding::Raw, e))
            } else if c == 4 {
                Some((KeylessRsaPadding::Oaep, e))
            } else if c == 5 {
                Some((KeylessRsaPadding::X931, e))
            } else if c == 6 {
                Some((KeylessRsaPadding::Pss, e))
            } else {
                None
            }
        },
        None => None,
    }
}

fn read_digest(b: &[u8], pos: usize) -> (r: Option<(KeylessSignDigest, usize)>)
    ensures
        match digest_at(b@, pos as int) {
            Some((d, next)) => r matches Some((x, e)) && x == d && e == next && e <= b@.len(),
            None => r is None,
        },
{
    match read_byte_item(b, pos, TAG_HASH) {
        Some((c, e)) => {
            if c == 1 {
                Some((KeylessSignDigest::Md5Sha1, e))
            } else if c == 2 {
                Some((KeylessSignDigest::Sha1, e))
            } else if c == 3 {
                Some((KeylessSignDigest::Sha224, e))
            } else if c == 4 {
                Some((KeylessSignDigest::Sha256, e))
            } else if c == 5 {
                Some((KeylessSignDigest::Sha384, e))
            } else if c == 6 {
                Some((KeylessSignDigest::Sha512, e))
            } else {
                None
            }
        },
        None => None,
    }
}

fn read_action(b: &[u8], pos: usize) -> (r: Option<(KeylessAction, usize)>)
    ensures
        match action_at(b@, pos as int) {
            Some((a, next)) => r matches Some((x, e)) && x == a && e == next && e <= b@.len(),
            None => r is None,
        },
{
    let (op, p1) = match read_byte_item(b, pos, TAG_OPCODE) {
        Some(x) => x,
        None => return None,
    };
    if op == OP_ED25519_SIGN {
        Some((KeylessAction::Ed25519Sign, p1))
    } else if op == OP_ECDSA_SIGN {
        match read_digest(b, p1) {
            Some((d, p2)) => Some((KeylessAction::EcdsaSign(d), p2)),
            None => None,
        }
    } else if op == OP_RSA_SIGN {
        match read_padding(b, p1) {
            Some((p, p2)) => match read_digest(b, p2) {
                Some((d, p3)) => Some((KeylessAction::RsaSign(d, p), p3)),
                None => None,
            },
            None => None,
        }
    } else if OP_RSA_PRIVATE_DECRYPT <= op && op <= OP_RSA_PUBLIC_ENCRYPT {
        match read_padding(b, p1) {
            Some((p, p2)) => {
                let a = if op == OP_RSA_PRIVATE_DECRYPT {
                    KeylessAction::RsaPrivateDecrypt(p)
                } else if op == OP_RSA_PRIVATE_ENCRYPT {
                    KeylessAction::RsaPrivateEncrypt(p)
                } else if op == OP_RSA_PUBLIC_DECRYPT {
                    KeylessAction::RsaPublicDecrypt(p)
                } else {
                    KeylessAction::RsaPublicEncrypt(p)
                };
                Some((a, p2))
            },
            None => None,
        }
    } else {
        None
    }
}

/// Decodes a request frame; `None` when the bytes are not exactly one well
/// formed request.
pub fn decode_request(b: &[u8]) -> (r: Option<DecodedRequest>)
    ensures
        match parse_request(b@) {
            Some((id, fp, a, pl)) => r matches Some(d) && d.id == id && d.key_digest@ == fp
                && d.action == a && d.payload@ == pl,
            None => r is None,
        },
{
    let (id, body) = match read_frame(b) {
        Some(x) => x,
        None => return None,
    };
    let (s1, e1) = match read_item(body, 0, TAG_KEY_DIGEST) {
        Some(x) => x,
        None => return None,
    };
    let (action, p2) = match read_action(body, e1) {
        Some(x) => x,
        None => return None,
    };
    let (s3, e3) = match read_item(body, p2, TAG_PAYLOAD) {
        Some(x) => x,
        None => return None,
    };
    if e3 != body.len() {
        return None;
    }
    let key_digest = vstd::slice::slice_to_vec(slice_subrange(body, s1, e1));
    let payload = vstd::slice::slice_to_vec(slice_subrange(body, s3, e3));
    Some(DecodedRequest { id, key_digest, action, payload })
}

/// Decodes a response frame; `None` when the bytes are not exactly one well
/// formed response.
pub fn decode_response(b: &[u8]) -> (r: Option<KeylessResponse>)
    ensures
        match parse_response(b@) {
            Some((id, outcome)) => r matches Some(x) && x.id == id && outcome_view(x.result)
                == outcome,
            None => r is None,
        },
{
    let (id, body) = match read_frame(b) {
        Some(x) => x,
        None => return None,
    };
    let (op, p1) = match read_byte_item(body, 0, TAG_OPCODE) {
        Some(x) => x,
        None => return None,
    };
    if op == OP_RESPONSE {
        match read_item(body, p1, TAG_PAYLOAD) {
            Some((s, e)) => {
                if e != body.len() {
                    return None;
                }
                let data = vstd::slice::slice_to_vec(slice_subrange(body, s, e));
                Some(KeylessResponse { id, result: Ok(data) })
            },
            None => None,
        }
    } else if op == OP_ERROR {
        match read_byte_item(body, p1, TAG_PAYLOAD) {
            Some((code, e)) => {
                if e != body.len() {
                    return None;
                }
                Some(KeylessResponse { id, result: Err(code) })
            },
            None => None,
        }
    } else {
        None
    }
}

} // verus!
