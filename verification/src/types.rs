//! Shared value types: social platforms, upgrade kinds, signatures and
//! wallet settings.
use vstd::prelude::*;
use vstd::string::StringSliceAdditionalSpecFns;
use crate::address::Address;
use crate::bytes::bytes_eq;
use crate::errors::ContractError;

verus! {

/// The bytes of an ASCII text.
pub open spec fn ascii(s: Seq<char>) -> Seq<u8> {
    Seq::new(s.len(), |i: int| s[i] as u8)
}

/// Whether `s` is the text of the literal `lit`.
pub fn matches_text(s: &[u8], lit: &str) -> (r: bool)
    ensures
        r == (s@ == lit.spec_bytes()),
{
    bytes_eq(s, lit.as_bytes())
}

/// A string literal and the bytes it encodes.
pub proof fn lemma_literal_bytes(lit: &str, chars: Seq<char>)
    requires
        lit@ == chars,
        vstd::utf8::is_ascii_chars(chars),
    ensures
        lit.spec_bytes() == ascii(chars),
{
    assert(vstd::string::is_ascii(lit));
    vstd::string::is_ascii_spec_bytes(lit);
    assert(lit.spec_bytes() =~= ascii(chars));
}

/// Supported social identity platforms.
#[derive(Clone, Copy, Debug, PartialEq, Eq, Structural)]
pub enum SocialPlatform {
    X,
    Discord,
    Telegram,
    Email,
    Tiktok,
    Sms,
}

/// The spelling `"twitter"`, accepted as another name of `X`.
pub open spec fn twitter_name() -> Seq<char> {
    seq!['t', 'w', 'i', 't', 't', 'e', 'r']
}

impl SocialPlatform {
    /// Canonical lowercase name of the platform.
    pub open spec fn name(self) -> Seq<char> {
        match self {
            SocialPlatform::X => seq!['x'],
            SocialPlatform::Discord => seq!['d', 'i', 's', 'c', 'o', 'r', 'd'],
            SocialPlatform::Telegram => seq!['t', 'e', 'l', 'e', 'g', 'r', 'a', 'm'],
            SocialPlatform::Email => seq!['e', 'm', 'a', 'i', 'l'],
            SocialPlatform::Tiktok => seq!['t', 'i', 'k', 't', 'o', 'k'],
            SocialPlatform::Sms => seq!['s', 'm', 's'],
        }
    }

    /// The platform a text names, if any: the canonical names, and
    /// `"twitter"` for `X`. Matching is exact and case-sensitive.
    pub open spec fn parse(s: Seq<u8>) -> Option<SocialPlatform> {
        if s == ascii(SocialPlatform::X.name()) || s == ascii(twitter_name()) {
            Some(SocialPlatform::X)
        } else if s == ascii(SocialPlatform::Discord.name()) {
            Some(SocialPlatform::Discord)
        } else if s == ascii(SocialPlatform::Telegram.name()) {
            Some(SocialPlatform::Telegram)
        } else if s == ascii(SocialPlatform::Email.name()) {
            Some(SocialPlatform::Email)
        } else if s == ascii(SocialPlatform::Tiktok.name()) {
            Some(SocialPlatform::Tiktok)
        } else if s == ascii(SocialPlatform::Sms.name()) {
            Some(SocialPlatform::Sms)
        } else {
            None
        }
    }

    /// Parses a platform name.
    pub fn is_platform_supported(s: &[u8]) -> (r: Result<SocialPlatform, ContractError>)
        ensures
            r == (match SocialPlatform::parse(s@) {
                Some(p) => Ok(p),
                None => Err(ContractError::PlatformNotSupported),
            }),
    {
        let tw = "twitter";
        proof {
            reveal_strlit("twitter");
            assert(tw@ =~= twitter_name());
                    lemma_literal_bytes(tw, twitter_name());
        }
        if matches_text(s, SocialPlatform::X.as_str()) || matches_text(s, tw) {
            return Ok(SocialPlatform::X);
        }
        if matches_text(s, SocialPlatform::Discord.as_str()) {
            return Ok(SocialPlatform::Discord);
        }
        if matches_text(s, SocialPlatform::Telegram.as_str()) {
            return Ok(SocialPlatform::Telegram);
        }
        if matches_text(s, SocialPlatform::Email.as_str()) {
            return Ok(SocialPlatform::Email);
        }
        if matches_text(s, SocialPlatform::Tiktok.as_str()) {
            return Ok(SocialPlatform::Tiktok);
        }
        if matches_text(s, SocialPlatform::Sms.as_str()) {
            return Ok(SocialPlatform::Sms);
        }
        Err(ContractError::PlatformNotSupported)
    }

    /// The canonical string of the platform.
    pub fn as_str(&self) -> (r: &'static str)
        ensures
            r@ == self.name(),
            r.spec_bytes() == ascii(self.name()),
    {
        match self {
            SocialPlatform::X => {
                let r = "x";
                proof {
                    reveal_strlit("x");
                    assert(r@ =~= self.name());
                    lemma_literal_bytes(r, self.name());
                }
                r
            },
            SocialPlatform::Discord => {
                let r = "discord";
                proof {
                    reveal_strlit("discord");
                    assert(r@ =~= self.name());
                    lemma_literal_bytes(r, self.name());
                }
                r
            },
            SocialPlatform::Telegram => {
                let r = "telegram";
                proof {
                    reveal_strlit("telegram");
                    assert(r@ =~= self.name());
                    lemma_literal_bytes(r, self.name());
                }
                r
            },
            SocialPlatform::Email => {
                let r = "email";
                proof {
                    reveal_strlit("email");
                    assert(r@ =~= self.name());
                    lemma_literal_bytes(r, self.name());
                }
                r
            },
            SocialPlatform::Tiktok => {
                let r = "tiktok";
                proof {
                    reveal_strlit("tiktok");
                    assert(r@ =~= self.name());
                    lemma_literal_bytes(r, self.name());
                }
                r
            },
            SocialPlatform::Sms => {
                let r = "sms";
                proof {
                    reveal_strlit("sms");
                    assert(r@ =~= self.name());
                    lemma_literal_bytes(r, self.name());
                }
                r
            },
        }
    }
}

/// Parsing the canonical name of a platform gives the platform back.
pub proof fn lemma_platform_roundtrip(p: SocialPlatform)
    ensures
        SocialPlatform::parse(ascii(p.name())) == Some(p),
{
    let names = seq![
        ascii(SocialPlatform::X.name()),
        ascii(twitter_name()),
        ascii(SocialPlatform::Discord.name()),
        ascii(SocialPlatform::Telegram.name()),
        ascii(SocialPlatform::Email.name()),
        ascii(SocialPlatform::Tiktok.name()),
        ascii(SocialPlatform::Sms.name()),
    ];
    // Distinct names differ in length or in their first bytes.
    assert(ascii(SocialPlatform::X.name())[0] == 120u8);
    assert(ascii(twitter_name())[1] == 119u8);
    assert(ascii(SocialPlatform::Discord.name())[0] == 100u8);
    assert(ascii(SocialPlatform::Telegram.name())[1] == 101u8);
    assert(ascii(SocialPlatform::Email.name())[0] == 101u8);
    assert(ascii(SocialPlatform::Tiktok.name())[1] == 105u8);
    assert(ascii(SocialPlatform::Sms.name())[0] == 115u8);
}

/// A text that parses names its platform (or is `"twitter"` for `X`).
pub proof fn lemma_platform_parse_name(s: Seq<u8>)
    ensures
        SocialPlatform::parse(s) matches Some(p) ==> s == ascii(p.name()) || (p
            == SocialPlatform::X && s == ascii(twitter_name())),
{
}

/// Kind of an upgrade proposal.
#[derive(Clone, Copy, Debug, PartialEq, Eq, Structural)]
pub enum UpgradeType {
    Upgrade,
    WalletVersion,
}

/// `"upgrade"`.
pub open spec fn upgrade_name() -> Seq<char> {
    seq!['u', 'p', 'g', 'r', 'a', 'd', 'e']
}

/// `"wallet"`.
pub open spec fn wallet_name() -> Seq<char> {
    seq!['w', 'a', 'l', 'l', 'e', 't']
}

impl UpgradeType {
    /// Parses a proposal kind: `"upgrade"` or `"wallet"`.
    pub fn upgrade_type(s: &[u8]) -> (r: Result<UpgradeType, ContractError>)
        ensures
            r == (if s@ == ascii(upgrade_name()) {
                Ok(UpgradeType::Upgrade)
            } else if s@ == ascii(wallet_name()) {
                Ok(UpgradeType::WalletVersion)
            } else {
                Err(ContractError::NotSupportedUpgradeType)
            }),
    {
        let up = "upgrade";
        let wa = "wallet";
        proof {
            reveal_strlit("upgrade");
            reveal_strlit("wallet");
            assert(up@ =~= upgrade_name());
                    lemma_literal_bytes(up, upgrade_name());
            assert(wa@ =~= wallet_name());
                    lemma_literal_bytes(wa, wallet_name());
        }
        if matches_text(s, up) {
            return Ok(UpgradeType::Upgrade);
        }
        if matches_text(s, wa) {
            return Ok(UpgradeType::WalletVersion);
        }
        Err(ContractError::NotSupportedUpgradeType)
    }
}

/// A validator's signature over a message: the validator's 32-byte ed25519
/// public key and the 64-byte signature.
#[derive(Clone, Debug)]
pub struct ValidatorSignature {
    pub validator: Vec<u8>,
    pub signature: Vec<u8>,
}

/// A wallet's passkey and username.
#[derive(Clone, Debug)]
pub struct WebKeyDetails {
    pub passkey: Vec<u8>,
    pub username: Vec<u8>,
}

/// A wallet's default allowance and its linked external account.
#[derive(Clone, Debug)]
pub struct AccessSettings {
    pub default_allowance: i128,
    pub g_account: Option<Address>,
}

} // verus!
