//! The registry's own platform type: the same platforms as the shared one,
//! parsed strictly (only canonical names), with the registry's error.
use vstd::prelude::*;
use vstd::string::StringSliceAdditionalSpecFns;
use crate::types::{ascii, lemma_literal_bytes, matches_text, twitter_name};

verus! {

/// Errors of registry value parsing.
#[derive(Clone, Copy, Debug, PartialEq, Eq, Structural)]
pub enum RegistryError {
    PlatformNotSupported,
}

/// Supported social identity platforms.
#[derive(Clone, Copy, Debug, PartialEq, Eq, Structural)]
pub enum SocialPlatform {
    X,
    Discord,
    Telegram,
    Email,
    Tiktok,
    Sms,
}

impl SocialPlatform {
    /// The shared platform of the same name.
    pub open spec fn shared(self) -> crate::types::SocialPlatform {
        match self {
            SocialPlatform::X => crate::types::SocialPlatform::X,
            SocialPlatform::Discord => crate::types::SocialPlatform::Discord,
            SocialPlatform::Telegram => crate::types::SocialPlatform::Telegram,
            SocialPlatform::Email => crate::types::SocialPlatform::Email,
            SocialPlatform::Tiktok => crate::types::SocialPlatform::Tiktok,
            SocialPlatform::Sms => crate::types::SocialPlatform::Sms,
        }
    }

    /// Canonical lowercase name of the platform.
    pub open spec fn name(self) -> Seq<char> {
        self.shared().name()
    }

    /// The platform whose canonical name is exactly `s`, if any; matching
    /// is case-sensitive and accepts no other spelling.
    pub open spec fn parse(s: Seq<u8>) -> Option<SocialPlatform> {
        if s == ascii(SocialPlatform::X.name()) {
            Some(SocialPlatform::X)
        } else if s == ascii(SocialPlatform::Discord.name()) {
            Some(SocialPlatform::Discord)
        } else if s == ascii(SocialPlatform::Telegram.name()) {
            Some(SocialPlatform::Telegram)
        } else if s == ascii(SocialPlatform::Email.name()) {
            Some(SocialPlatform::Email)
        } else if s == ascii(SocialPlatform::Tiktok.name()) {
            Some(SocialPlatform::Tiktok)
        } else if s == ascii(SocialPlatform::Sms.name()) {
            Some(SocialPlatform::Sms)
        } else {
            None
        }
    }

    /// Parses a canonical platform name.
    pub fn is_platform_supported(s: &[u8]) -> (r: Result<SocialPlatform, RegistryError>)
        ensures
            r == (match SocialPlatform::parse(s@) {
                Some(p) => Ok(p),
                None => Err(RegistryError::PlatformNotSupported),
            }),
    {
        let tw = "twitter";
        proof {
            reveal_strlit("twitter");
            assert(tw@ =~= twitter_name());
            lemma_literal_bytes(tw, twitter_name());
            let t = ascii(twitter_name());
            assert(t.len() == 7 && t[0] == 116u8);
            assert(ascii(crate::types::SocialPlatform::X.name()).len() == 1);
            assert(ascii(crate::types::SocialPlatform::Discord.name())[0] == 100u8);
            assert(ascii(crate::types::SocialPlatform::Telegram.name()).len() == 8);
            assert(ascii(crate::types::SocialPlatform::Email.name()).len() == 5);
            assert(ascii(crate::types::SocialPlatform::Tiktok.name()).len() == 6);
            assert(ascii(crate::types::SocialPlatform::Sms.name()).len() == 3);
        }
        if matches_text(s, tw) {
            return Err(RegistryError::PlatformNotSupported);
        }
        match crate::types::SocialPlatform::is_platform_supported(s) {
            Ok(crate::types::SocialPlatform::X) => Ok(SocialPlatform::X),
            Ok(crate::types::SocialPlatform::Discord) => Ok(SocialPlatform::Discord),
            Ok(crate::types::SocialPlatform::Telegram) => Ok(SocialPlatform::Telegram),
            Ok(crate::types::SocialPlatform::Email) => Ok(SocialPlatform::Email),
            Ok(crate::types::SocialPlatform::Tiktok) => Ok(SocialPlatform::Tiktok),
            Ok(crate::types::SocialPlatform::Sms) => Ok(SocialPlatform::Sms),
            Err(_) => Err(RegistryError::PlatformNotSupported),
        }
    }

    /// The canonical string of the platform.
    pub fn as_str(&self) -> (r: &'static str)
        ensures
            r@ == self.name(),
            r.spec_bytes() == ascii(self.name()),
    {
        let shared = match self {
            SocialPlatform::X => crate::types::SocialPlatform::X,
            SocialPlatform::Discord => crate::types::SocialPlatform::Discord,
            SocialPlatform::Telegram => crate::types::SocialPlatform::Telegram,
            SocialPlatform::Email => crate::types::SocialPlatform::Email,
            SocialPlatform::Tiktok => crate::types::SocialPlatform::Tiktok,
            SocialPlatform::Sms => crate::types::SocialPlatform::Sms,
        };
        shared.as_str()
    }
}

/// Parsing the canonical name of a platform gives the platform back.
pub proof fn lemma_strict_platform_roundtrip(p: SocialPlatform)
    ensures
        SocialPlatform::parse(ascii(p.name())) == Some(p),
{
    crate::types::lemma_platform_roundtrip(p.shared());
}

} // verus!
