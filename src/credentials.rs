use vstd::prelude::*;
use vstd::utf8::encode_utf8;

verus! {

/// Longest network name, in bytes, that the radio driver's station
/// configuration can hold.
pub const SSID_MAX_BYTES: usize = 32;

/// Longest passphrase, in bytes, that the radio driver's station
/// configuration can hold.
pub const PASSWORD_MAX_BYTES: usize = 64;

/// Why a pair of credentials cannot be used.
#[derive(Clone, Copy, Debug, PartialEq, Eq, Structural)]
pub enum ConfigError {
    EmptySsid,
    SsidTooLong,
    EmptyPassword,
    PasswordTooLong,
}

/// The length in bytes of a string's UTF-8 encoding, as `str::len` gives it.
pub open spec fn byte_len(s: Seq<char>) -> usize {
    encode_utf8(s).len() as usize
}

/// The verdict on a network name and a passphrase of the given byte lengths:
/// both must be non-empty and fit the driver's fixed-size fields. The name is
/// judged before the passphrase.
pub open spec fn credentials_check(ssid_len: usize, password_len: usize) -> Result<(), ConfigError> {
    if ssid_len == 0 {
        Err(ConfigError::EmptySsid)
    } else if ssid_len > SSID_MAX_BYTES {
        Err(ConfigError::SsidTooLong)
    } else if password_len == 0 {
        Err(ConfigError::EmptyPassword)
    } else if password_len > PASSWORD_MAX_BYTES {
        Err(ConfigError::PasswordTooLong)
    } else {
        Ok(())
    }
}

/// A network name and passphrase that are known to fit the radio driver's
/// station configuration without truncation.
pub struct Credentials {
    ssid: String,
    password: String,
}

impl Credentials {
    /// The network name.
    pub closed spec fn ssid_view(&self) -> Seq<char> {
        self.ssid@
    }

    /// The passphrase.
    pub closed spec fn password_view(&self) -> Seq<char> {
        self.password@
    }

    /// Both fields are non-empty and fit the driver's fields once encoded.
    pub open spec fn wf(&self) -> bool {
        credentials_check(
            byte_len(self.ssid_view()),
            byte_len(self.password_view()),
        ) is Ok
    }

    /// Checks and keeps a network name and passphrase.
    pub fn new(ssid: &str, password: &str) -> (r: Result<Credentials, ConfigError>)
        ensures
            credentials_check(byte_len(ssid@), byte_len(password@)) is Ok <==> r is Ok,
            r matches Err(e) ==> credentials_check(byte_len(ssid@), byte_len(password@)) == Err::<(), ConfigError>(e),
            r matches Ok(c) ==> c.ssid_view() == ssid@ && c.password_view() == password@ && c.wf(),
    {
        let ssid_len = ssid.len();
        let password_len = password.len();
        if ssid_len == 0 {
            Err(ConfigError::EmptySsid)
        } else if ssid_len > SSID_MAX_BYTES {
            Err(ConfigError::SsidTooLong)
        } else if password_len == 0 {
            Err(ConfigError::EmptyPassword)
        } else if password_len > PASSWORD_MAX_BYTES {
            Err(ConfigError::PasswordTooLong)
        } else {
            Ok(Credentials { ssid: ssid.to_owned(), password: password.to_owned() })
        }
    }

    /// The network name.
    pub fn ssid(&self) -> (r: &str)
        ensures
            r@ == self.ssid_view(),
    {
        self.ssid.as_str()
    }

    /// The passphrase.
    pub fn password(&self) -> (r: &str)
        ensures
            r@ == self.password_view(),
    {
        self.password.as_str()
    }
}

} // verus!
