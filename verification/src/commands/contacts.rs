//! Contact commands: new contacts and the link (QR) text that carries one.

use vstd::prelude::*;
use vstd::string::*;
use vstd::utf8::{encode_utf8, encode_utf8_valid_utf8, is_char_boundary};
use crate::codec::{hex_decode, hex_value};
use crate::storage::contacts::{Contact, TrustLevel};
use crate::text::text_eq;

verus! {

/// Error wrapper for commands
#[derive(Debug, Clone)]
pub struct CommandError {
    pub message: String,
}

/// The text of a link to a peer: `whisper://<peer_id>/<public_key_hex>`.
pub open spec fn link_text(peer_id: Seq<char>, key_hex: Seq<char>) -> Seq<char> {
    "whisper://"@ + peer_id + seq!['/'] + key_hex
}

/// Whether `qr` is the link text of `peer_id` and `key_hex`, each free of
/// `/` (so that the text splits back into them).
pub open spec fn is_link(qr: Seq<char>, peer_id: Seq<char>, key_hex: Seq<char>) -> bool {
    &&& qr == link_text(peer_id, key_hex)
    &&& !peer_id.contains('/')
    &&& !key_hex.contains('/')
}

/// Whether an error's message is the given text.
pub open spec fn error_says(e: CommandError, msg: Seq<char>) -> bool {
    e.message@ == msg
}

/// The length in bytes of the alias that a contact gets by default.
pub open spec fn default_alias_len(peer_id: Seq<char>) -> int {
    if encode_utf8(peer_id).len() < 8 {
        encode_utf8(peer_id).len() as int
    } else {
        8
    }
}

/// The alias a contact gets when none is given: the first 8 bytes of its
/// peer id (all of it, if shorter).
pub fn default_alias(peer_id: &str) -> (alias: String)
    requires
        is_char_boundary(encode_utf8(peer_id@), default_alias_len(peer_id@)),
    ensures
        encode_utf8(alias@) == encode_utf8(peer_id@).subrange(0, default_alias_len(peer_id@)),
{
    assert(peer_id.spec_bytes() == encode_utf8(peer_id@));
    proof {
        encode_utf8_valid_utf8(peer_id@);
    }
    let byte_len = peer_id.as_bytes().len();
    let n = if byte_len < 8 {
        byte_len
    } else {
        8
    };
    let (head, _) = peer_id.split_at(n);
    assert(head.spec_bytes() == encode_utf8(head@));
    head.to_owned()
}

/// A new contact for `peer_id`, not yet trusted, created and updated `now`.
pub fn new_contact(peer_id: String, alias: Option<String>, public_key: Vec<u8>, now: i64) -> (c:
    Contact)
    requires
        alias is None ==> is_char_boundary(encode_utf8(peer_id@), default_alias_len(peer_id@)),
    ensures
        c.peer_id@ == peer_id@,
        alias matches Some(a) ==> c.alias@ == a@,
        alias is None ==> encode_utf8(c.alias@) == encode_utf8(peer_id@).subrange(
            0,
            default_alias_len(peer_id@),
        ),
        c.public_key@ == public_key@,
        c.trust_level == TrustLevel::Unknown,
        c.created_at == now,
        c.updated_at == now,
{
    let alias = match alias {
        Some(a) => a,
        None => default_alias(peer_id.as_str()),
    };
    Contact {
        peer_id,
        alias,
        public_key,
        trust_level: TrustLevel::Unknown,
        created_at: now,
        updated_at: now,
    }
}

/// Parse link (QR) text: `whisper://<peer_id>/<public_key_hex>`, into the
/// peer id and the public key bytes.
pub fn parse_link_qr(qr_data: &str) -> (r: Result<(String, Vec<u8>), CommandError>)
    ensures
        forall|p: Seq<char>, h: Seq<char>|
            #![trigger is_link(qr_data@, p, h)]
            is_link(qr_data@, p, h) ==> match hex_value(encode_utf8(h)) {
                Some(k) => r matches Ok((peer, key)) && peer@ == p && key@ == k,
                None => r matches Err(e) && exists|m: Seq<char>|
                    e.message@ == "Invalid public key: "@ + m,
            },
        (forall|p: Seq<char>, h: Seq<char>| !is_link(qr_data@, p, h)) ==> (r matches Err(e)
            && error_says(e, "Invalid QR format"@)),
{
    proof {
        reveal_strlit("whisper://");
    }
    let n = qr_data.unicode_len();
    if n < 10 {
        proof {
            assert forall|p: Seq<char>, h: Seq<char>| !is_link(qr_data@, p, h) by {
                if is_link(qr_data@, p, h) {
                    assert(link_text(p, h).len() >= 10);
                }
            }
        }
        return Err(CommandError { message: String::from_str("Invalid QR format") });
    }
    let prefix = qr_data.substring_char(0, 10);
    if !text_eq(prefix, "whisper://") {
        proof {
            assert forall|p: Seq<char>, h: Seq<char>| !is_link(qr_data@, p, h) by {
                if is_link(qr_data@, p, h) {
                    assert(link_text(p, h).subrange(0, 10) =~= "whisper://"@);
                }
            }
        }
        return Err(CommandError { message: String::from_str("Invalid QR format") });
    }
    let rest = qr_data.substring_char(10, n);
    let m = rest.unicode_len();
    let ghost rs = rest@;
    assert(qr_data@ =~= "whisper://"@ + rs);

    // Find the '/' that separates the peer id from the key, and whether
    // there is more than one.
    let mut first: Option<usize> = None;
    let mut multiple = false;
    let ghost mut second: int = 0;
    let mut i: usize = 0;
    while i < m
        invariant
            i <= m,
            m == rs.len(),
            rest@ == rs,
            first is None ==> forall|j: int| 0 <= j < i ==> rs[j] != '/',
            first matches Some(f) ==> (f < i && rs[f as int] == '/' && forall|j: int|
                0 <= j < f ==> rs[j] != '/'),
            !multiple && first is Some ==> forall|j: int|
                first->0 < j < i ==> rs[j] != '/',
            multiple ==> (first is Some && first->0 < second < i && rs[second] == '/'),
        decreases m - i,
    {
        if rest.get_char(i) == '/' {
            match first {
                None => {
                    first = Some(i);
                },
                Some(_) => {
                    if !multiple {
                        proof {
                            second = i as int;
                        }
                    }
                    multiple = true;
                },
            }
        }
        i = i + 1;
    }

    let f = match first {
        Some(f) => f,
        None => {
            proof {
                assert forall|p: Seq<char>, h: Seq<char>| !is_link(qr_data@, p, h) by {
                    if is_link(qr_data@, p, h) {
                        assert(rs =~= p + seq!['/'] + h);
                        assert(rs[p.len() as int] == '/');
                    }
                }
            }
            return Err(CommandError { message: String::from_str("Invalid QR format") });
        },
    };
    if multiple {
        proof {
            assert forall|p: Seq<char>, h: Seq<char>| !is_link(qr_data@, p, h) by {
                if is_link(qr_data@, p, h) {
                    assert(rs =~= p + seq!['/'] + h);
                    let k = p.len() as int;
                    // Every '/' of `rs` is at `k`.
                    assert forall|j: int| 0 <= j < rs.len() && rs[j] == '/' implies j == k by {
                        if j < k {
                            assert(p[j] == rs[j]);
                        } else if j > k {
                            assert(h[j - k - 1] == rs[j]);
                        }
                    }
                }
            }
        }
        return Err(CommandError { message: String::from_str("Invalid QR format") });
    }
    let peer = rest.substring_char(0, f);
    let key_text = rest.substring_char(f + 1, m);
    proof {
        assert forall|j: int| 0 <= j < peer@.len() implies peer@[j] != '/' by {
            assert(peer@[j] == rs[j]);
        }
        assert forall|j: int| 0 <= j < key_text@.len() implies key_text@[j] != '/' by {
            assert(key_text@[j] == rs[f + 1 + j]);
        }
        assert(rs =~= peer@ + seq!['/'] + key_text@);
        assert(qr_data@ =~= link_text(peer@, key_text@));
        assert(is_link(qr_data@, peer@, key_text@));
        // The split is unique.
        assert forall|p: Seq<char>, h: Seq<char>| is_link(qr_data@, p, h) implies p == peer@
            && h == key_text@ by {
            assert(qr_data@ =~= "whisper://"@ + (p + seq!['/'] + h));
            assert(rs =~= p + seq!['/'] + h);
            let k = p.len() as int;
            if k < f {
                assert(rs[k] == '/');
            } else if k > f {
                assert(p[f as int] == rs[f as int]);
            }
            assert(p =~= peer@);
            assert(h =~= key_text@);
        }
    }
    let public_key = match hex_decode(key_text.as_bytes()) {
        Ok(k) => k,
        Err(e) => {
            let mut message = String::from_str("Invalid public key: ");
            message.append(e.as_str());
            return Err(CommandError { message });
        },
    };
    Ok((String::from_str(peer), public_key))
}

} // verus!
