//! The credential and endpoint resolver's verified core: strict parsing
//! and validation of the four configured values. A configuration either
//! parses whole or fails fast with the first offending item; no partial
//! configuration is ever produced.

use vstd::prelude::*;
use vstd::slice::slice_to_vec;
use crate::hex::valid_fixed_hex;
use crate::hex::hex_bytes;
use crate::hex::strip_hex_prefix;
use crate::hex::parse_fixed_hex;
use crate::words::Word;
use crate::words::Address;
use crate::words::be_val;

verus! {

/// The order of the secp256k1 group, big-endian. A signing key is a
/// scalar that is nonzero and below this order.
pub open spec fn secp256k1_order() -> Seq<u8> {
    seq![
        0xffu8,
        0xffu8,
        0xffu8,
        0xffu8,
        0xffu8,
        0xffu8,
        0xffu8,
        0xffu8,
        0xffu8,
        0xffu8,
        0xffu8,
        0xffu8,
        0xffu8,
        0xffu8,
        0xffu8,
        0xfeu8,
        0xbau8,
        0xaeu8,
        0xdcu8,
        0xe6u8,
        0xafu8,
        0x48u8,
        0xa0u8,
        0x3bu8,
        0xbfu8,
        0xd2u8,
        0x5eu8,
        0x8cu8,
        0xd0u8,
        0x36u8,
        0x41u8,
        0x41u8,
    ]
}

/// The group order as a word.
pub fn secp256k1_order_word() -> (w: Word)
    ensures
        w.wf(),
        w@ == secp256k1_order(),
{
    let mut v: Vec<u8> = Vec::new();
    v.push(0xff);
    v.push(0xff);
    v.push(0xff);
    v.push(0xff);
    v.push(0xff);
    v.push(0xff);
    v.push(0xff);
    v.push(0xff);
    v.push(0xff);
    v.push(0xff);
    v.push(0xff);
    v.push(0xff);
    v.push(0xff);
    v.push(0xff);
    v.push(0xff);
    v.push(0xfe);
    v.push(0xba);
    v.push(0xae);
    v.push(0xdc);
    v.push(0xe6);
    v.push(0xaf);
    v.push(0x48);
    v.push(0xa0);
    v.push(0x3b);
    v.push(0xbf);
    v.push(0xd2);
    v.push(0x5e);
    v.push(0x8c);
    v.push(0xd0);
    v.push(0x36);
    v.push(0x41);
    v.push(0x41);
    assert(v@ =~= secp256k1_order());
    Word::from_exact(v)
}

/// Which configured value an error speaks of.
#[derive(Clone, Copy, Debug, PartialEq, Eq, Structural)]
pub enum ConfigItem {
    Topic,
    Endpoint,
    SigningKey,
    AdminAddress,
}

/// Fatal configuration failure: a value is missing from the environment
/// or does not parse into its strict form.
#[derive(Clone, Copy, Debug, PartialEq, Eq, Structural)]
pub enum ConfigError {
    Missing(ConfigItem),
    Malformed(ConfigItem),
}

/// The watched topic parses as exactly 32 bytes of hex.
pub open spec fn topic_text_ok(s: Seq<u8>) -> bool {
    valid_fixed_hex(s, 32)
}

/// The text begins with the given prefix.
pub open spec fn starts_with(s: Seq<u8>, p: Seq<u8>) -> bool {
    s.len() >= p.len() && s.take(p.len() as int) == p
}

/// The bytes of `ws://` (119 'w', 115 's', 58 ':', 47 '/').
pub open spec fn ws_scheme() -> Seq<u8> {
    seq![119u8, 115u8, 58u8, 47u8, 47u8]
}

/// The bytes of `wss://`.
pub open spec fn wss_scheme() -> Seq<u8> {
    seq![119u8, 115u8, 115u8, 58u8, 47u8, 47u8]
}

/// A byte a URI may carry: visible ASCII, so no space and no control
/// character.
pub open spec fn is_uri_byte(b: u8) -> bool {
    0x21 <= b && b <= 0x7e
}

/// What follows the endpoint's scheme.
pub open spec fn endpoint_authority(s: Seq<u8>) -> Seq<u8> {
    if starts_with(s, wss_scheme()) {
        s.skip(6)
    } else if starts_with(s, ws_scheme()) {
        s.skip(5)
    } else {
        s
    }
}

/// The byte may open the authority of an endpoint: it is none of the
/// delimiters `/` (47), `:` (58), `?` (63), `#` (35), so a host name
/// follows the scheme.
pub open spec fn opens_authority(b: u8) -> bool {
    b != 47u8 && b != 58u8 && b != 63u8 && b != 35u8
}

/// The endpoint parses as a websocket URI in strict form: the scheme
/// `ws://` or `wss://`, then a nonempty authority beginning with a host
/// name, every byte visible ASCII.
pub open spec fn endpoint_text_ok(s: Seq<u8>) -> bool {
    &&& forall|i: int| 0 <= i < s.len() ==> is_uri_byte(#[trigger] s[i])
    &&& (starts_with(s, ws_scheme()) || starts_with(s, wss_scheme()))
    &&& endpoint_authority(s).len() > 0
    &&& opens_authority(endpoint_authority(s)[0])
}

/// Checks the endpoint grammar.
fn endpoint_ok(s: &[u8]) -> (r: bool)
    ensures
        r == endpoint_text_ok(s@),
{
    let mut i: usize = 0;
    while i < s.len()
        invariant
            i <= s@.len(),
            forall|j: int| 0 <= j < i ==> is_uri_byte(#[trigger] s@[j]),
        decreases s@.len() - i,
    {
        if s[i] < 0x21 || s[i] > 0x7e {
            assert(!is_uri_byte(s@[i as int]));
            return false;
        }
        i = i + 1;
    }
    let rest_start: usize;
    if s.len() >= 6 && s[0] == 119 && s[1] == 115 && s[2] == 115 && s[3] == 58 && s[4] == 47
        && s[5] == 47 {
        proof {
            assert(s@.take(6) =~= wss_scheme());
        }
        rest_start = 6;
    } else if s.len() >= 5 && s[0] == 119 && s[1] == 115 && s[2] == 58 && s[3] == 47 && s[4]
        == 47 {
        proof {
            assert(s@.take(5) =~= ws_scheme());
            assert(!starts_with(s@, wss_scheme()));
        }
        rest_start = 5;
    } else {
        proof {
            if starts_with(s@, ws_scheme()) {
                assert(s@[0] == s@.take(5)[0] && s@[1] == s@.take(5)[1] && s@[2] == s@.take(
                    5)[2] && s@[3] == s@.take(5)[3] && s@[4] == s@.take(5)[4]);
            }
            if starts_with(s@, wss_scheme()) {
                assert(s@[0] == s@.take(6)[0] && s@[1] == s@.take(6)[1] && s@[2] == s@.take(
                    6)[2] && s@[3] == s@.take(6)[3] && s@[4] == s@.take(6)[4] && s@[5]
                    == s@.take(6)[5]);
            }
        }
        return false;
    }
    if rest_start >= s.len() {
        return false;
    }
    let b = s[rest_start];
    if b == 47 || b == 58 || b == 63 || b == 35 {
        return false;
    }
    assert(endpoint_authority(s@)[0] == s@[rest_start as int]);
    true
}

/// The signing key parses as 32 bytes of hex denoting a valid secp256k1
/// secret scalar: nonzero and below the group order.
pub open spec fn key_text_ok(s: Seq<u8>) -> bool {
    &&& valid_fixed_hex(s, 32)
    &&& 0 < be_val(hex_bytes(strip_hex_prefix(s)))
    &&& be_val(hex_bytes(strip_hex_prefix(s))) < be_val(secp256k1_order())
}

/// The admin address parses as exactly 20 bytes of hex.
pub open spec fn admin_text_ok(s: Seq<u8>) -> bool {
    valid_fixed_hex(s, 20)
}

/// The first configuration error, checked item by item in the fixed
/// order topic, endpoint, signing key, admin address; `None` stands for
/// a value absent from the environment. Meaningful only where some item
/// is missing or malformed: with four valid values no error exists and
/// resolution succeeds instead.
pub open spec fn first_config_error(
    topic: Option<Seq<u8>>,
    endpoint: Option<Seq<u8>>,
    key: Option<Seq<u8>>,
    admin: Option<Seq<u8>>,
) -> ConfigError {
    match topic {
        Option::None => ConfigError::Missing(ConfigItem::Topic),
        Option::Some(t) => if !topic_text_ok(t) {
            ConfigError::Malformed(ConfigItem::Topic)
        } else {
            match endpoint {
                Option::None => ConfigError::Missing(ConfigItem::Endpoint),
                Option::Some(e) => if !endpoint_text_ok(e) {
                    ConfigError::Malformed(ConfigItem::Endpoint)
                } else {
                    match key {
                        Option::None => ConfigError::Missing(ConfigItem::SigningKey),
                        Option::Some(k) => if !key_text_ok(k) {
                            ConfigError::Malformed(ConfigItem::SigningKey)
                        } else {
                            match admin {
                                Option::None => ConfigError::Missing(ConfigItem::AdminAddress),
                                Option::Some(_) => ConfigError::Malformed(ConfigItem::AdminAddress),
                            }
                        },
                    }
                },
            }
        },
    }
}

/// The view of an optional borrowed text.
pub open spec fn opt_bytes(x: Option<&[u8]>) -> Option<Seq<u8>> {
    match x {
        Option::None => Option::None,
        Option::Some(v) => Option::Some(v@),
    }
}

/// Immutable configuration, loaded once at startup. All four values
/// parsed; no partial configuration exists.
#[derive(Debug)]
pub struct SweepConfig {
    /// The watched recipient, topic-encoded.
    pub watch_topic: Word,
    /// The node's streaming endpoint text.
    pub endpoint: Vec<u8>,
    /// The signing key scalar, decoded.
    pub signing_key: Word,
    /// The sweep destination.
    pub admin: Address,
}

impl SweepConfig {
    pub open spec fn wf(self) -> bool {
        &&& self.watch_topic.wf()
        &&& endpoint_text_ok(self.endpoint@)
        &&& self.signing_key.wf()
        &&& 0 < self.signing_key.val() < be_val(secp256k1_order())
        &&& self.admin.wf()
    }
}

/// Resolves the configuration from the four environment-provided texts,
/// each `None` where its variable is absent. Returns the parsed
/// configuration exactly where every value is present and valid, and
/// otherwise the first error in the order topic, endpoint, signing key,
/// admin address.
pub fn from_values(
    topic: Option<&[u8]>,
    endpoint: Option<&[u8]>,
    key: Option<&[u8]>,
    admin: Option<&[u8]>,
) -> (r: Result<SweepConfig, ConfigError>)
    ensures
        r is Ok <==> ((topic matches Some(t) && topic_text_ok(t@))
            && (endpoint matches Some(e) && endpoint_text_ok(e@))
            && (key matches Some(k) && key_text_ok(k@))
            && (admin matches Some(a) && admin_text_ok(a@))),
        r matches Ok(c) ==> c.wf(),
        r matches Ok(c) ==> (topic matches Some(t) && c.watch_topic@ == hex_bytes(
            strip_hex_prefix(t@))),
        r matches Ok(c) ==> (endpoint matches Some(e) && c.endpoint@ == e@),
        r matches Ok(c) ==> (key matches Some(k) && c.signing_key@ == hex_bytes(
            strip_hex_prefix(k@))),
        r matches Ok(c) ==> (admin matches Some(a) && c.admin@ == hex_bytes(
            strip_hex_prefix(a@))),
        r matches Err(err) ==> err == first_config_error(
            opt_bytes(topic), opt_bytes(endpoint), opt_bytes(key), opt_bytes(admin)),
{
    let t = match topic {
        Some(t) => t,
        None => {
            return Err(ConfigError::Missing(ConfigItem::Topic));
        },
    };
    let watch_topic = match parse_fixed_hex(t, 32) {
        Some(v) => Word::from_exact(v),
        None => {
            return Err(ConfigError::Malformed(ConfigItem::Topic));
        },
    };
    let e = match endpoint {
        Some(e) => e,
        None => {
            return Err(ConfigError::Missing(ConfigItem::Endpoint));
        },
    };
    if !endpoint_ok(e) {
        return Err(ConfigError::Malformed(ConfigItem::Endpoint));
    }
    let k = match key {
        Some(k) => k,
        None => {
            return Err(ConfigError::Missing(ConfigItem::SigningKey));
        },
    };
    let signing_key = match parse_fixed_hex(k, 32) {
        Some(v) => Word::from_exact(v),
        None => {
            return Err(ConfigError::Malformed(ConfigItem::SigningKey));
        },
    };
    if signing_key.is_zero() {
        return Err(ConfigError::Malformed(ConfigItem::SigningKey));
    }
    let order = secp256k1_order_word();
    if signing_key.ge(&order) {
        return Err(ConfigError::Malformed(ConfigItem::SigningKey));
    }
    let a = match admin {
        Some(a) => a,
        None => {
            return Err(ConfigError::Missing(ConfigItem::AdminAddress));
        },
    };
    let admin_address = match parse_fixed_hex(a, 20) {
        Some(v) => Address::from_exact(v),
        None => {
            return Err(ConfigError::Malformed(ConfigItem::AdminAddress));
        },
    };
    Ok(SweepConfig {
        watch_topic,
        endpoint: slice_to_vec(e),
        signing_key,
        admin: admin_address,
    })
}

} // verus!
