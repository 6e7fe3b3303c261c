//! The identity of the device that the machine stands for.

use vstd::prelude::*;
use vstd::string::StringExecFns;
use rand::RngCore;
use crate::text::{bytes_to_hex_cased, hex_text_of};

verus! {

/// How a device describes itself to the server where nothing else is known.
pub open spec fn default_client_info() -> Seq<char> {
    "<MacBookPro13,2> <macOS;13.1;22C65> <com.apple.AuthKit/1 (com.apple.dt.Xcode/3594.4.19)>"@
}

/// The identity of a device.
#[derive(Debug, Clone)]
pub struct DeviceData {
    pub unique_device_identifier: String,
    pub server_friendly_description: String,
    pub adi_identifier: String,
    pub local_user_uuid: String,
}

impl Default for DeviceData {
    fn default() -> (r: Self)
        ensures
            r.unique_device_identifier@.len() == 0,
            r.server_friendly_description@.len() == 0,
            r.adi_identifier@.len() == 0,
            r.local_user_uuid@.len() == 0,
    {
        Self {
            unique_device_identifier: String::new(),
            server_friendly_description: String::new(),
            adi_identifier: String::new(),
            local_user_uuid: String::new(),
        }
    }
}

/// A device identity and the file it is kept in.
#[derive(Debug, Clone)]
pub struct Device {
    /// Path of the file that keeps the identity.
    pub path: String,
    pub data: DeviceData,
    /// Whether the identity was read from its file or made up since.
    pub initialized: bool,
}

/// The text that `str::to_uppercase` makes of a text.
pub uninterp spec fn uppercased(text: Seq<char>) -> Seq<char>;

/// Calls `str::to_uppercase`. The contract names the result.
#[verifier::external_body]
fn to_uppercase(text: &str) -> (r: String)
    ensures
        r@ == uppercased(text@),
{
    text.to_uppercase()
}

/// Calls `uuid::Uuid::new_v4` and writes the fresh identifier as text. The
/// identifier is random: nothing is promised of it.
#[verifier::external_body]
fn random_uuid_text() -> String {
    uuid::Uuid::new_v4().to_string()
}

/// Fills a buffer of `length` bytes by `fill_bytes` of `rand::thread_rng`. The
/// bytes are random: only their number is promised.
#[verifier::external_body]
fn random_bytes(length: usize) -> (r: Vec<u8>)
    ensures
        r@.len() == length,
{
    let mut bytes = vec![0_u8; length];
    rand::thread_rng().fill_bytes(&mut bytes);
    bytes
}

/// `byte_len` random bytes as hexadecimal text.
pub fn random_hex(byte_len: usize, uppercase: bool) -> (r: String)
    ensures
        r@.len() == 2 * byte_len,
        exists|bytes: Seq<u8>| bytes.len() == byte_len && r@ == hex_text_of(bytes, uppercase),
{
    let bytes = random_bytes(byte_len);
    bytes_to_hex_cased(bytes.as_slice(), uppercase)
}

impl Device {
    /// The device of a file: with the identity that the file holds where
    /// there is one, and without an identity yet where the file is missing.
    pub fn load(path: String, stored: Option<DeviceData>) -> (r: Self)
        ensures
            r.path == path,
            r.initialized == stored is Some,
            stored matches Some(data) ==> r.data == data,
            stored is None ==> {
                &&& r.data.unique_device_identifier@.len() == 0
                &&& r.data.server_friendly_description@.len() == 0
                &&& r.data.adi_identifier@.len() == 0
                &&& r.data.local_user_uuid@.len() == 0
            },
    {
        match stored {
            Some(data) => Self { path, data, initialized: true },
            None => Self { path, data: DeviceData::default(), initialized: false },
        }
    }

    /// Gives the device an identity out of fresh material: the text of a
    /// fresh UUID, eight bytes for the ADI identifier and thirty-two for the
    /// local user.
    pub fn initialize_with(&mut self, uuid: &str, identifier: &[u8], local_user: &[u8])
        ensures
            final(self).path == old(self).path,
            final(self).initialized,
            final(self).data.server_friendly_description@ == default_client_info(),
            final(self).data.unique_device_identifier@ == uppercased(uuid@),
            final(self).data.adi_identifier@ == hex_text_of(identifier@, false),
            final(self).data.local_user_uuid@ == hex_text_of(local_user@, true),
    {
        self.data.server_friendly_description = String::from_str(
            "<MacBookPro13,2> <macOS;13.1;22C65> <com.apple.AuthKit/1 (com.apple.dt.Xcode/3594.4.19)>",
        );
        self.data.unique_device_identifier = to_uppercase(uuid);
        self.data.adi_identifier = bytes_to_hex_cased(identifier, false);
        self.data.local_user_uuid = bytes_to_hex_cased(local_user, true);
        self.initialized = true;
    }

    /// Gives the device a random identity: a fresh UUID in upper case, an ADI
    /// identifier of eight random bytes in lower-case hexadecimal, and a local
    /// user of thirty-two random bytes in upper-case hexadecimal.
    pub fn initialize_defaults(&mut self)
        ensures
            final(self).path == old(self).path,
            final(self).initialized,
            final(self).data.server_friendly_description@ == default_client_info(),
            exists|uuid: Seq<char>| final(self).data.unique_device_identifier@ == uppercased(uuid),
            exists|bytes: Seq<u8>|
                bytes.len() == 8 && final(self).data.adi_identifier@ == hex_text_of(bytes, false),
            exists|bytes: Seq<u8>|
                bytes.len() == 32 && final(self).data.local_user_uuid@ == hex_text_of(bytes, true),
    {
        let uuid = random_uuid_text();
        let identifier = random_bytes(8);
        let local_user = random_bytes(32);
        self.initialize_with(uuid.as_str(), identifier.as_slice(), local_user.as_slice());
    }
}

} // verus!
