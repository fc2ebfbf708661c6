//! Device identity: MAC address, client id, serial number and HMAC key, and how they are kept.

use hmac::{KeyInit, Mac, SimpleHmac};
use sha2::{Digest, Sha256};
use uuid::Uuid;
use vstd::prelude::*;
use vstd::string::*;
use vstd::utf8::*;

use crate::{json, text};

verus! {

/// The SHA-256 digest of a byte string.
pub uninterp spec fn sha256(data: Seq<u8>) -> Seq<u8>;

/// The HMAC-SHA-256 code of a message under a key.
pub uninterp spec fn hmac_sha256(key: Seq<u8>, message: Seq<u8>) -> Seq<u8>;

/// `sha2::Sha256::digest`: the digest of the data, and of nothing else.
#[verifier::external_body]
fn digest_sha256(data: &[u8]) -> (r: [u8; 32])
    ensures
        r@ == sha256(data@),
{
    Sha256::digest(data).into()
}

/// `hmac::SimpleHmac<sha2::Sha256>` on one message: the code of the message under the key, which
/// may have any length.
#[verifier::external_body]
fn code_hmac_sha256(key: &[u8], message: &[u8]) -> (r: [u8; 32])
    ensures
        r@ == hmac_sha256(key@, message@),
{
    let mut mac = SimpleHmac::<Sha256>::new_from_slice(key).expect("any key length is accepted");
    mac.update(message);
    mac.finalize().into_bytes().into()
}

/// Whether 16 bytes are a random UUID: version 4, variant 1.
pub open spec fn is_uuid_v4(b: Seq<u8>) -> bool {
    b.len() == 16 && b[6] as int / 16 == 4 && b[8] as int / 64 == 2
}

/// `uuid::Uuid::new_v4`: 16 random bytes with the version and variant of a random UUID. Nothing
/// more holds of every outcome.
#[verifier::external_body]
pub(crate) fn random_uuid() -> (b: [u8; 16])
    ensures
        is_uuid_v4(b@),
{
    *Uuid::new_v4().as_bytes()
}

/// The text of a UUID: lowercase hexadecimal digits in groups of 8, 4, 4, 4 and 12.
pub open spec fn uuid_text(b: Seq<u8>) -> Seq<char> {
    text::hex_text(b.subrange(0, 4)) + "-"@ + text::hex_text(b.subrange(4, 6)) + "-"@
        + text::hex_text(b.subrange(6, 8)) + "-"@ + text::hex_text(b.subrange(8, 10)) + "-"@
        + text::hex_text(b.subrange(10, 16))
}

/// `uuid::Uuid`'s `to_string`: lowercase hexadecimal digits in groups of 8, 4, 4, 4 and 12 with
/// hyphens between the groups.
#[verifier::external_body]
fn format_uuid(b: &[u8; 16]) -> (s: String)
    ensures
        s@ == uuid_text(b@),
{
    Uuid::from_bytes(*b).to_string()
}

/// The credentials of a device.
#[derive(Debug)]
pub struct DeviceIdentity {
    pub device_id: String,
    pub client_id: String,
    pub serial_number: String,
    pub hmac_key: String,
    pub activation_status: bool,
    pub efuse_path: String,
}

/// The credentials as they are kept on disk. What an old file lacks is empty or false.
#[derive(Debug)]
pub struct EfuseData {
    pub mac_address: String,
    pub client_id: String,
    pub serial_number: String,
    pub hmac_key: String,
    pub activation_status: bool,
}

impl Default for EfuseData {
    fn default() -> (d: Self)
        ensures
            d.mac_address@ == Seq::<char>::empty(),
            d.client_id@ == Seq::<char>::empty(),
            d.serial_number@ == Seq::<char>::empty(),
            d.hmac_key@ == Seq::<char>::empty(),
            !d.activation_status,
    {
        EfuseData {
            mac_address: String::new(),
            client_id: String::new(),
            serial_number: String::new(),
            hmac_key: String::new(),
            activation_status: false,
        }
    }
}

/// The file on disk.
pub struct StoredIdentity {
    pub content: String,
    /// What the content parses to, if it does.
    pub data: Option<EfuseData>,
}

/// The first byte of a MAC address made of a random one: locally administered, not multicast.
pub open spec fn local_byte(b: u8) -> u8 {
    (b & 0xFE) | 0x02
}

/// The six bytes of the MAC address that a random UUID makes.
pub open spec fn mac_bytes(uuid: Seq<u8>) -> Seq<u8> {
    seq![local_byte(uuid[0]), uuid[1], uuid[2], uuid[3], uuid[4], uuid[5]]
}

/// The text of a MAC address: six pairs of hexadecimal digits with colons between them.
pub open spec fn mac_text(mac: Seq<u8>) -> Seq<char> {
    text::separated_hex(mac, ':')
}

/// The serial number of a device: `SN-`, the first eight digits of the digest of the MAC address
/// without colons, in upper case, and that address itself.
pub open spec fn serial_text(mac: Seq<u8>) -> Seq<char> {
    "SN-"@ + text::upper_hex_text(sha256(encode_utf8(text::hex_text(mac))).take(4)) + "-"@
        + text::hex_text(mac)
}

/// The HMAC key of a device: the digest of host name, MAC address and client id, which binds the
/// credentials to the machine.
pub open spec fn key_text(host: Seq<char>, device_id: Seq<char>, client_id: Seq<char>) -> Seq<
    char,
> {
    text::hex_text(sha256(encode_utf8(host + "||"@ + device_id + "||"@ + client_id)))
}

/// The systems that keep their configuration in different places.
#[derive(Debug, Clone, Copy, PartialEq, Eq, Structural)]
pub enum Platform {
    Windows,
    MacOs,
    Unix,
    Other,
}

/// Where the configuration lies: below the directory that a variable names, or, without one, in
/// the working directory.
#[derive(Debug, Clone, Copy, PartialEq, Eq, Structural)]
pub enum ConfigDir {
    /// `%APPDATA%\xiaozhi-rs`
    AppData,
    /// `$HOME/Library/Application Support/xiaozhi-rs`
    HomeLibrary,
    /// `$XDG_CONFIG_HOME/xiaozhi-rs`
    Xdg,
    /// `$HOME/.config/xiaozhi-rs`
    HomeConfig,
    /// `.`
    Working,
}

/// Where the configuration lies on a platform, by which variables are set.
pub open spec fn config_dir_of(p: Platform, appdata: bool, home: bool, xdg: bool) -> ConfigDir {
    match p {
        Platform::Windows => if appdata {
            ConfigDir::AppData
        } else {
            ConfigDir::Working
        },
        Platform::MacOs => if home {
            ConfigDir::HomeLibrary
        } else {
            ConfigDir::Working
        },
        Platform::Unix => if xdg {
            ConfigDir::Xdg
        } else if home {
            ConfigDir::HomeConfig
        } else {
            ConfigDir::Working
        },
        Platform::Other => ConfigDir::Working,
    }
}

/// Where the configuration lies on a platform, by which variables are set.
pub fn app_config_dir(platform: Platform, appdata: bool, home: bool, xdg: bool) -> (d: ConfigDir)
    ensures
        d == config_dir_of(platform, appdata, home, xdg),
{
    match platform {
        Platform::Windows => if appdata {
            ConfigDir::AppData
        } else {
            ConfigDir::Working
        },
        Platform::MacOs => if home {
            ConfigDir::HomeLibrary
        } else {
            ConfigDir::Working
        },
        Platform::Unix => if xdg {
            ConfigDir::Xdg
        } else if home {
            ConfigDir::HomeConfig
        } else {
            ConfigDir::Working
        },
        Platform::Other => ConfigDir::Working,
    }
}

/// The host name that the system reports: on Unix without white space around it, and `unknown`
/// where there is none.
pub open spec fn host_of(p: Platform, reported: Option<String>) -> Seq<char> {
    match (p, reported) {
        (Platform::Unix, Some(s)) => if text::trimmed(s@).len() > 0 {
            text::trimmed(s@)
        } else {
            "unknown"@
        },
        (Platform::Windows, Some(s)) => s@,
        (Platform::MacOs, Some(s)) => s@,
        _ => "unknown"@,
    }
}

/// The host name that goes into the HMAC key.
pub fn hostname_str(platform: Platform, reported: Option<String>) -> (s: String)
    ensures
        s@ == host_of(platform, reported),
{
    match reported {
        Some(name) => match platform {
            Platform::Unix => {
                let v = text::to_chars(name.as_str());
                let (from, to) = text::trim_range(&v);
                if from < to {
                    text::from_chars(&v, from, to)
                } else {
                    "unknown".to_owned()
                }
            },
            Platform::Other => "unknown".to_owned(),
            _ => name,
        },
        None => "unknown".to_owned(),
    }
}

impl DeviceIdentity {
    /// A MAC address that the server authorizes without activation.
    pub const TEST_MAC: &'static str = "00:00:00:00:00:00";

    /// Whether this is the new identity that two random UUIDs make on a host.
    pub open spec fn made_of(
        self,
        mac_uuid: Seq<u8>,
        client_uuid: Seq<u8>,
        host: Seq<char>,
        path: Seq<char>,
    ) -> bool {
        &&& self.device_id@ == mac_text(mac_bytes(mac_uuid))
        &&& self.client_id@ == uuid_text(client_uuid)
        &&& self.serial_number@ == serial_text(mac_bytes(mac_uuid))
        &&& self.hmac_key@ == key_text(host, self.device_id@, self.client_id@)
        &&& !self.activation_status
        &&& self.efuse_path@ == path
    }

    /// Whether this is the identity that stored data and two random UUIDs make: what the data
    /// has, and a new client id or MAC address only where it has none.
    pub open spec fn restored_from(
        self,
        data: EfuseData,
        mac_uuid: Seq<u8>,
        client_uuid: Seq<u8>,
        path: Seq<char>,
    ) -> bool {
        &&& self.device_id@ == if data.mac_address@.len() == 0 {
            mac_text(mac_bytes(mac_uuid))
        } else {
            data.mac_address@
        }
        &&& self.client_id@ == if data.client_id@.len() == 0 {
            uuid_text(client_uuid)
        } else {
            data.client_id@
        }
        &&& self.serial_number@ == data.serial_number@
        &&& self.hmac_key@ == data.hmac_key@
        &&& self.activation_status == data.activation_status
        &&& self.efuse_path@ == path
    }

    /// The text of the MAC address that a random UUID makes.
    pub fn mac_of(uuid: &[u8; 16]) -> (s: String)
        ensures
            s@ == mac_text(mac_bytes(uuid@)),
    {
        let mac = [(uuid[0] & 0xFE) | 0x02, uuid[1], uuid[2], uuid[3], uuid[4], uuid[5]];
        assert(mac@.take(6) =~= mac_bytes(uuid@));
        text::to_separated_hex(mac.as_slice(), 6, ':')
    }

    /// The identity that two random UUIDs make on a host.
    pub fn derive(
        mac_uuid: &[u8; 16],
        client_uuid: &[u8; 16],
        hostname: &str,
        efuse_path: String,
    ) -> (id: Self)
        ensures
            id.made_of(mac_uuid@, client_uuid@, hostname@, efuse_path@),
    {
        let device_id = Self::mac_of(mac_uuid);
        let client_id = format_uuid(client_uuid);
        let mac = [
            (mac_uuid[0] & 0xFE) | 0x02,
            mac_uuid[1],
            mac_uuid[2],
            mac_uuid[3],
            mac_uuid[4],
            mac_uuid[5],
        ];
        assert(mac@ =~= mac_bytes(mac_uuid@));
        let mac_clean = text::to_hex(mac.as_slice());
        let hash = digest_sha256(mac_clean.as_str().as_bytes());
        let mut serial_number = "SN-".to_owned();
        serial_number.append(text::to_upper_hex(hash.as_slice(), 4).as_str());
        serial_number.append("-");
        serial_number.append(mac_clean.as_str());
        let mut seed = hostname.to_owned();
        seed.append("||");
        seed.append(device_id.as_str());
        seed.append("||");
        seed.append(client_id.as_str());
        let key = digest_sha256(seed.as_str().as_bytes());
        let hmac_key = text::to_hex(key.as_slice());
        DeviceIdentity {
            device_id,
            client_id,
            serial_number,
            hmac_key,
            activation_status: false,
            efuse_path,
        }
    }

    /// A new identity, out of two random UUIDs.
    pub fn create_new(hostname: &str, efuse_path: String) -> (id: Self)
        ensures
            exists|m: Seq<u8>, c: Seq<u8>|
                is_uuid_v4(m) && is_uuid_v4(c) && #[trigger] id.made_of(
                    m,
                    c,
                    hostname@,
                    efuse_path@,
                ),
    {
        let mac_uuid = random_uuid();
        let client_uuid = random_uuid();
        let id = Self::derive(&mac_uuid, &client_uuid, hostname, efuse_path);
        assert(id.made_of(mac_uuid@, client_uuid@, hostname@, efuse_path@));
        id
    }

    /// The identity that stored data makes, with a new client id or MAC address out of random
    /// UUIDs where the data has none; and whether it has to be stored again, which a new client id
    /// asks for: otherwise every start would make another one.
    pub fn restore(
        data: EfuseData,
        mac_uuid: &[u8; 16],
        client_uuid: &[u8; 16],
        efuse_path: String,
    ) -> (r: (Self, bool))
        ensures
            r.0.restored_from(data, mac_uuid@, client_uuid@, efuse_path@),
            r.1 == needs_storing(data),
    {
        let missing = data.client_id.as_str().is_empty();
        let client_id = if missing {
            format_uuid(client_uuid)
        } else {
            data.client_id
        };
        let device_id = if data.mac_address.as_str().is_empty() {
            Self::mac_of(mac_uuid)
        } else {
            data.mac_address
        };
        let id = DeviceIdentity {
            device_id,
            client_id,
            serial_number: data.serial_number,
            hmac_key: data.hmac_key,
            activation_status: data.activation_status,
            efuse_path,
        };
        (id, missing)
    }

    /// Loads the identity out of the file, or makes a new one where there is no file, a blank one
    /// or one that does not parse. Also says whether the identity has to be stored.
    pub fn load_or_create(
        file: Option<StoredIdentity>,
        hostname: &str,
        efuse_path: String,
    ) -> (r: (Self, bool))
        ensures
            match usable(file) {
                Some(data) => {
                    &&& exists|m: Seq<u8>, c: Seq<u8>|
                        is_uuid_v4(m) && is_uuid_v4(c) && #[trigger] r.0.restored_from(
                            data,
                            m,
                            c,
                            efuse_path@,
                        )
                    &&& r.1 == needs_storing(data)
                },
                None => {
                    &&& exists|m: Seq<u8>, c: Seq<u8>|
                        is_uuid_v4(m) && is_uuid_v4(c) && #[trigger] r.0.made_of(
                            m,
                            c,
                            hostname@,
                            efuse_path@,
                        )
                    &&& r.1
                },
            },
    {
        let ghost given = file;
        match file {
            Some(stored) => {
                let v = text::to_chars(stored.content.as_str());
                let (from, to) = text::trim_range(&v);
                if from < to {
                    match stored.data {
                        Some(data) => {
                            let mac_uuid = random_uuid();
                            let client_uuid = random_uuid();
                            let r = Self::restore(data, &mac_uuid, &client_uuid, efuse_path);
                            assert(r.0.restored_from(data, mac_uuid@, client_uuid@, efuse_path@));
                            return r;
                        },
                        None => {},
                    }
                }
            },
            None => {},
        }
        assert(usable(given) is None);
        let id = Self::create_new(hostname, efuse_path);
        let r = (id, true);
        proof {
            let (m, c) = choose|m: Seq<u8>, c: Seq<u8>|
                is_uuid_v4(m) && is_uuid_v4(c) && #[trigger] id.made_of(
                    m,
                    c,
                    hostname@,
                    efuse_path@,
                );
            assert(r.0.made_of(m, c, hostname@, efuse_path@));
        }
        r
    }

    /// Whether the device is activated.
    pub fn is_activated(&self) -> (r: bool)
        ensures
            r == self.activation_status,
    {
        self.activation_status
    }

    /// Signs a challenge: its HMAC-SHA-256 code under the text of the HMAC key, in hexadecimal.
    pub fn generate_hmac_signature(&self, challenge: &str) -> (s: String)
        ensures
            s@ == text::hex_text(
                hmac_sha256(encode_utf8(self.hmac_key@), encode_utf8(challenge@)),
            ),
    {
        let code = code_hmac_sha256(self.hmac_key.as_str().as_bytes(), challenge.as_bytes());
        text::to_hex(code.as_slice())
    }

    /// The text that stores the identity: JSON, one member per line.
    pub open spec fn stored_text(self) -> Seq<char> {
        "{\n  \"mac_address\": "@ + json::quoted(self.device_id@) + ",\n  \"client_id\": "@
            + json::quoted(self.client_id@) + ",\n  \"serial_number\": "@ + json::quoted(
            self.serial_number@,
        ) + ",\n  \"hmac_key\": "@ + json::quoted(self.hmac_key@)
            + ",\n  \"activation_status\": "@ + (if self.activation_status {
            "true\n}"@
        } else {
            "false\n}"@
        })
    }

    /// The text that stores the identity.
    pub fn save_text(&self) -> (s: String)
        ensures
            s@ == self.stored_text(),
    {
        let mut s = "{\n  \"mac_address\": ".to_owned();
        s.append(json::quote(self.device_id.as_str()).as_str());
        s.append(",\n  \"client_id\": ");
        s.append(json::quote(self.client_id.as_str()).as_str());
        s.append(",\n  \"serial_number\": ");
        s.append(json::quote(self.serial_number.as_str()).as_str());
        s.append(",\n  \"hmac_key\": ");
        s.append(json::quote(self.hmac_key.as_str()).as_str());
        s.append(",\n  \"activation_status\": ");
        if self.activation_status {
            s.append("true\n}");
        } else {
            s.append("false\n}");
        }
        s
    }

    /// Marks the device as activated. Returns the text to store.
    pub fn set_activated(&mut self) -> (content: String)
        ensures
            *final(self) == (DeviceIdentity { activation_status: true, ..*old(self) }),
            content@ == final(self).stored_text(),
    {
        self.activation_status = true;
        self.save_text()
    }

    /// Stands in for a device that the server authorizes without activation.
    pub fn use_test_mac(&mut self)
        ensures
            final(self).device_id@ == "00:00:00:00:00:00"@,
            final(self).client_id == old(self).client_id,
            final(self).serial_number == old(self).serial_number,
            final(self).hmac_key == old(self).hmac_key,
            final(self).activation_status == old(self).activation_status,
            final(self).efuse_path == old(self).efuse_path,
    {
        self.device_id = "00:00:00:00:00:00".to_owned();
    }
}

/// The data of a file that can be used: there is a file, it is not blank, and it parses.
pub open spec fn usable(file: Option<StoredIdentity>) -> Option<EfuseData> {
    match file {
        Some(stored) => if text::trimmed(stored.content@).len() > 0 {
            stored.data
        } else {
            None
        },
        None => None,
    }
}

/// Whether an identity has to be stored again once it is restored: its client id was missing.
pub open spec fn needs_storing(data: EfuseData) -> bool {
    data.client_id@.len() == 0
}

/// A made-up MAC address is locally administered and no multicast address, so that it cannot
/// clash with a global one.
pub proof fn law_mac_is_local(uuid: Seq<u8>)
    requires
        uuid.len() == 16,
    ensures
        mac_bytes(uuid)[0] & 0x02 == 0x02,
        mac_bytes(uuid)[0] & 0x01 == 0,
        mac_bytes(uuid)[0] & 0xFC == uuid[0] & 0xFC,
{
    let b = uuid[0];
    assert(((b & 0xFE) | 0x02) & 0x02 == 0x02) by (bit_vector);
    assert(((b & 0xFE) | 0x02) & 0x01 == 0) by (bit_vector);
    assert(((b & 0xFE) | 0x02) & 0xFC == b & 0xFC) by (bit_vector);
}

/// An identity that was stored is the same after a restart: restoring the data that was stored
/// keeps every credential, whatever UUIDs are drawn, and asks for no storing.
pub proof fn law_identity_survives_restart(
    before: DeviceIdentity,
    data: EfuseData,
    after: DeviceIdentity,
    mac_uuid: Seq<u8>,
    client_uuid: Seq<u8>,
)
    requires
        before.device_id@.len() > 0,
        before.client_id@.len() > 0,
        data.mac_address@ == before.device_id@,
        data.client_id@ == before.client_id@,
        data.serial_number@ == before.serial_number@,
        data.hmac_key@ == before.hmac_key@,
        data.activation_status == before.activation_status,
        after.restored_from(data, mac_uuid, client_uuid, before.efuse_path@),
    ensures
        after.device_id@ == before.device_id@,
        after.client_id@ == before.client_id@,
        after.serial_number@ == before.serial_number@,
        after.hmac_key@ == before.hmac_key@,
        after.activation_status == before.activation_status,
        after.efuse_path@ == before.efuse_path@,
        !needs_storing(data),
{
}

/// The credentials of a new identity are never empty, so it is never made anew after a restart.
pub proof fn law_new_identity_is_complete(
    id: DeviceIdentity,
    mac_uuid: Seq<u8>,
    client_uuid: Seq<u8>,
    host: Seq<char>,
    path: Seq<char>,
)
    requires
        mac_uuid.len() == 16,
        client_uuid.len() == 16,
        id.made_of(mac_uuid, client_uuid, host, path),
    ensures
        id.device_id@.len() == 17,
        id.client_id@.len() == 36,
{
    reveal_with_fuel(text::separated_hex, 7);
    reveal_strlit("-");
    let m = mac_bytes(mac_uuid);
    assert(m.drop_last().drop_last().drop_last().drop_last().drop_last().drop_last().len() == 0);
}

/// The place of the configuration: the directory of the platform where its variable is set, and
/// the working directory otherwise. On Unix the directory for configurations goes before the home.
pub proof fn law_config_places(p: Platform, appdata: bool, home: bool, xdg: bool, d: ConfigDir)
    requires
        call_ensures(app_config_dir, (p, appdata, home, xdg), d),
    ensures
        d == ConfigDir::AppData <==> p == Platform::Windows && appdata,
        d == ConfigDir::HomeLibrary <==> p == Platform::MacOs && home,
        d == ConfigDir::Xdg <==> p == Platform::Unix && xdg,
        d == ConfigDir::HomeConfig <==> p == Platform::Unix && home && !xdg,
{
}

/// The name of the host is what the system reports, on Unix without white space around it, and
/// `unknown` where that is nothing.
pub proof fn law_host_names(
    p: Platform,
    reported: Option<String>,
    s: String,
    before: Seq<char>,
    name: Seq<char>,
    after: Seq<char>,
)
    requires
        call_ensures(hostname_str, (p, reported), s),
        reported matches Some(t) ==> t@ == before + name + after,
        forall|i: int| 0 <= i < before.len() ==> text::is_white(#[trigger] before[i]),
        forall|i: int| 0 <= i < after.len() ==> text::is_white(#[trigger] after[i]),
        name.len() > 0 ==> !text::is_white(name[0]) && !text::is_white(name.last()),
    ensures
        reported is None || p == Platform::Other ==> s@ == "unknown"@,
        reported is Some && (p == Platform::Windows || p == Platform::MacOs) ==> s@
            == reported->0@,
        reported is Some && p == Platform::Unix ==> s@ == if name.len() > 0 {
            name
        } else {
            "unknown"@
        },
{
    text::law_trimming(before, name, after);
}

/// A new identity, out of two random numbers and the name of the host: a MAC address with colons,
/// locally administered and no multicast; the text of the second number as the client id; a serial
/// number that ends in the address; and a key that depends on host, address and client id. It is
/// not activated.
pub proof fn law_new_identities(
    mac_uuid: [u8; 16],
    client_uuid: [u8; 16],
    host: &str,
    path: String,
    id: DeviceIdentity,
)
    requires
        call_ensures(DeviceIdentity::derive, (&mac_uuid, &client_uuid, host, path), id),
    ensures
        ({
            let first = (mac_uuid@[0] & 0xFE) | 0x02;
            let mac = seq![
                first,
                mac_uuid@[1],
                mac_uuid@[2],
                mac_uuid@[3],
                mac_uuid@[4],
                mac_uuid@[5],
            ];
            &&& id.device_id@.len() == 17
            &&& forall|i: int|
                0 <= i < 6 ==> #[trigger] id.device_id@[3 * i] == "0123456789abcdef"@[mac[i] as int
                    / 16] && id.device_id@[3 * i + 1] == "0123456789abcdef"@[mac[i] as int % 16]
            &&& forall|i: int| 0 <= i < 5 ==> #[trigger] id.device_id@[3 * i + 2] == ':'
            &&& id.serial_number@ == "SN-"@ + text::upper_hex_text(
                sha256(encode_utf8(text::hex_text(mac))).take(4),
            ) + "-"@ + text::hex_text(mac)
            &&& id.hmac_key@ == text::hex_text(
                sha256(encode_utf8(host@ + "||"@ + id.device_id@ + "||"@ + id.client_id@)),
            )
            &&& id.client_id@ == uuid_text(client_uuid@)
            &&& !id.activation_status
            &&& id.efuse_path@ == path@
        }),
{
    let mac = mac_bytes(mac_uuid@);
    assert forall|i: int| 0 <= i < 6 implies #[trigger] id.device_id@[3 * i]
        == "0123456789abcdef"@[mac[i] as int / 16] && id.device_id@[3 * i + 1]
        == "0123456789abcdef"@[mac[i] as int % 16] by {
        text::law_separated_hex(mac, ':', i);
    }
    assert forall|i: int| 0 <= i < 5 implies #[trigger] id.device_id@[3 * i + 2] == ':' by {
        text::law_separated_hex(mac, ':', i);
    }
    text::law_separated_hex(mac, ':', 0);
}

/// The text of a random number has hyphens behind its eighth, twelfth, sixteenth and twentieth
/// digit, and the digits of all sixteen bytes in order.
pub proof fn law_uuid_texts(b: Seq<u8>)
    requires
        b.len() == 16,
    ensures
        uuid_text(b).len() == 36,
        uuid_text(b)[8] == '-' && uuid_text(b)[13] == '-' && uuid_text(b)[18] == '-' && uuid_text(
            b,
        )[23] == '-',
        uuid_text(b).subrange(0, 8) + uuid_text(b).subrange(9, 13) + uuid_text(b).subrange(14, 18)
            + uuid_text(b).subrange(19, 23) + uuid_text(b).subrange(24, 36) == text::hex_text(b),
{
    reveal_strlit("-");
    let t = uuid_text(b);
    let h = text::hex_text(b);
    assert(t.subrange(0, 8) =~= h.subrange(0, 8));
    assert(t.subrange(9, 13) =~= h.subrange(8, 12));
    assert(t.subrange(14, 18) =~= h.subrange(12, 16));
    assert(t.subrange(19, 23) =~= h.subrange(16, 20));
    assert(t.subrange(24, 36) =~= h.subrange(20, 32));
    assert(t.subrange(0, 8) + t.subrange(9, 13) + t.subrange(14, 18) + t.subrange(19, 23)
        + t.subrange(24, 36) =~= h);
}

/// What is stored is what is restored: a credential that the file has is kept, and only a missing
/// client id or address is made anew. A missing client id, and nothing else, asks for storing.
pub proof fn law_restored_identities(
    data: EfuseData,
    mac_uuid: [u8; 16],
    client_uuid: [u8; 16],
    path: String,
    r: (DeviceIdentity, bool),
)
    requires
        call_ensures(DeviceIdentity::restore, (data, &mac_uuid, &client_uuid, path), r),
    ensures
        data.mac_address@.len() > 0 ==> r.0.device_id@ == data.mac_address@,
        data.mac_address@.len() == 0 ==> r.0.device_id@.len() == 17,
        data.client_id@.len() > 0 ==> r.0.client_id@ == data.client_id@,
        data.client_id@.len() == 0 ==> r.0.client_id@ == uuid_text(client_uuid@),
        r.0.serial_number@ == data.serial_number@,
        r.0.hmac_key@ == data.hmac_key@,
        r.0.activation_status == data.activation_status,
        r.0.efuse_path@ == path@,
        r.1 <==> data.client_id@.len() == 0,
{
    text::law_separated_hex(mac_bytes(mac_uuid@), ':', 0);
}

/// A file that is not blank and parses is restored: all that it has is kept. Any other makes a new
/// identity, which is not activated and has to be stored.
pub proof fn law_files_are_restored(
    file: Option<StoredIdentity>,
    host: &str,
    path: String,
    r: (DeviceIdentity, bool),
    kept: Seq<char>,
)
    requires
        call_ensures(DeviceIdentity::load_or_create, (file, host, path), r),
    ensures
        file matches Some(f) ==> f.data matches Some(data) ==> f.content@ == kept && kept.len() > 0
            && !text::is_white(kept[0]) && !text::is_white(kept.last()) ==> {
            &&& r.0.hmac_key@ == data.hmac_key@
            &&& r.0.serial_number@ == data.serial_number@
            &&& r.0.activation_status == data.activation_status
            &&& data.client_id@.len() > 0 ==> r.0.client_id@ == data.client_id@ && !r.1
            &&& data.client_id@.len() == 0 ==> r.1
            &&& data.mac_address@.len() > 0 ==> r.0.device_id@ == data.mac_address@
        },
        file is None || file->0.data is None || file->0.content@.len() == 0 ==> r.1
            && !r.0.activation_status && r.0.efuse_path@ == path@,
{
    let none = Seq::<char>::empty();
    if let Some(f) = file {
        if f.content@ == kept && kept.len() > 0 && !text::is_white(kept[0]) && !text::is_white(
            kept.last(),
        ) {
            text::law_trimming(none, kept, none);
            assert(none + kept + none =~= kept);
        }
        if f.content@.len() == 0 {
            text::law_trimming(none, none, none);
            assert(none + none + none =~= f.content@);
        }
    }
}

/// What is stored names every credential, quoted, and whether the device is activated; activating
/// it changes that alone.
pub proof fn law_stored_texts(
    id: DeviceIdentity,
    s: String,
    other: &mut DeviceIdentity,
    t: String,
)
    requires
        call_ensures(DeviceIdentity::save_text, (&id,), s),
        call_ensures(DeviceIdentity::set_activated, (other,), t),
        *old(other) == id,
        !id.activation_status,
    ensures
        ({
            let front = "{\n  \"mac_address\": "@ + json::quoted(id.device_id@)
                + ",\n  \"client_id\": "@ + json::quoted(id.client_id@)
                + ",\n  \"serial_number\": "@ + json::quoted(id.serial_number@)
                + ",\n  \"hmac_key\": "@ + json::quoted(id.hmac_key@)
                + ",\n  \"activation_status\": "@;
            &&& s@ == front + "false\n}"@
            &&& t@ == front + "true\n}"@
            &&& final(other).activation_status
            &&& final(other).device_id == id.device_id
            &&& final(other).client_id == id.client_id
            &&& final(other).serial_number == id.serial_number
            &&& final(other).hmac_key == id.hmac_key
        }),
{
}

/// A challenge is answered with its code under the key of the device, two hexadecimal digits per
/// byte.
pub proof fn law_signatures(id: DeviceIdentity, challenge: &str, s: String, i: int)
    requires
        call_ensures(DeviceIdentity::generate_hmac_signature, (&id, challenge), s),
    ensures
        ({
            let code = hmac_sha256(encode_utf8(id.hmac_key@), encode_utf8(challenge@));
            0 <= i < code.len() ==> {
                &&& s@.len() == 2 * code.len()
                &&& s@[2 * i] == "0123456789abcdef"@[code[i] as int / 16]
                &&& s@[2 * i + 1] == "0123456789abcdef"@[code[i] as int % 16]
            }
        }),
{
    let code = hmac_sha256(encode_utf8(id.hmac_key@), encode_utf8(challenge@));
    if 0 <= i < code.len() {
        text::law_hex_text(code, i);
    }
}

/// The address for tests takes the place of the device's own and of nothing else, however often it
/// is set.
pub proof fn law_test_address(a: &mut DeviceIdentity, b: &mut DeviceIdentity)
    requires
        call_ensures(DeviceIdentity::use_test_mac, (a,), ()),
        *old(b) == *final(a),
        call_ensures(DeviceIdentity::use_test_mac, (b,), ()),
    ensures
        final(a).device_id@ == "00:00:00:00:00:00"@,
        final(b).device_id@ == final(a).device_id@,
        final(b).client_id == old(a).client_id,
        final(b).serial_number == old(a).serial_number,
        final(b).hmac_key == old(a).hmac_key,
        final(b).activation_status == old(a).activation_status,
{
}

} // verus!
