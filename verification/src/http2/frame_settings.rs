//! SETTINGS frames.
use super::flags::{has_bit, with_bit};
use super::Http2InnerFrame;
use crate::wire::{be_u16, be_u32, be_value, take_exact};
use vstd::prelude::*;

verus! {

#[derive(Debug)]
pub struct Http2FrameSettings {
    pub flags: Http2FrameSettingsFlags,
    pub settings: Vec<Http2SettingsEntry>,
}

#[derive(Debug, Clone, Copy, PartialEq, Eq, Structural)]
pub struct Http2SettingsEntry {
    pub identifier: SettingsIdentifier,
    pub value: u32,
}

#[derive(Debug, Clone, Copy, PartialEq, Eq, Structural)]
pub enum SettingsIdentifier {
    HeaderTableSize,
    EnablePush,
    MaxConcurrentStreams,
    InitialWindowSize,
    MaxFrameSize,
    MaxHeaderListSize,
}

/// The setting that a wire identifier names, if any: `1..=6` are defined.
pub open spec fn settings_identifier_of(value: nat) -> Option<SettingsIdentifier> {
    if value == 1 {
        Some(SettingsIdentifier::HeaderTableSize)
    } else if value == 2 {
        Some(SettingsIdentifier::EnablePush)
    } else if value == 3 {
        Some(SettingsIdentifier::MaxConcurrentStreams)
    } else if value == 4 {
        Some(SettingsIdentifier::InitialWindowSize)
    } else if value == 5 {
        Some(SettingsIdentifier::MaxFrameSize)
    } else if value == 6 {
        Some(SettingsIdentifier::MaxHeaderListSize)
    } else {
        None
    }
}

impl SettingsIdentifier {
    fn from_u16(value: u16) -> (r: Result<Self, ()>)
        ensures
            match settings_identifier_of(value as nat) {
                Some(id) => r == Ok::<SettingsIdentifier, ()>(id),
                None => r is Err,
            },
    {
        match value {
            0x1 => Ok(SettingsIdentifier::HeaderTableSize),
            0x2 => Ok(SettingsIdentifier::EnablePush),
            0x3 => Ok(SettingsIdentifier::MaxConcurrentStreams),
            0x4 => Ok(SettingsIdentifier::InitialWindowSize),
            0x5 => Ok(SettingsIdentifier::MaxFrameSize),
            0x6 => Ok(SettingsIdentifier::MaxHeaderListSize),
            _ => Err(()),
        }
    }
}

#[derive(Debug)]
pub struct Http2FrameSettingsFlags {
    pub flags: u8,
}

impl Http2FrameSettingsFlags {
    pub fn from_u8(value: u8) -> (r: Self)
        ensures
            r.flags == value,
    {
        Http2FrameSettingsFlags { flags: value }
    }

    pub fn as_u8(&self) -> (r: u8)
        ensures
            r == self.flags,
    {
        self.flags
    }

    /// ACK is bit `0x1`.
    pub fn get_ack(&self) -> (r: bool)
        ensures
            r == has_bit(self.flags, 0x1),
    {
        self.flags & 0x1 == 0x1
    }

    pub fn set_ack(&mut self, ack: bool)
        ensures
            final(self).flags == with_bit(old(self).flags, 0x1, ack),
    {
        if ack {
            self.flags = self.flags | 0x1;
        } else {
            self.flags = self.flags & !0x1u8;
        }
    }
}

/// The identifier field of the `k`-th six-byte entry of a payload.
pub open spec fn entry_identifier(payload: Seq<u8>, k: int) -> nat {
    be_value(payload.subrange(6 * k, 6 * k + 2))
}

/// The value field of the `k`-th six-byte entry of a payload.
pub open spec fn entry_value(payload: Seq<u8>, k: int) -> nat {
    be_value(payload.subrange(6 * k + 2, 6 * k + 6))
}

/// Every entry among the first `n` of the payload has a defined identifier.
pub open spec fn entries_defined(payload: Seq<u8>, n: int) -> bool {
    forall|k: int| 0 <= k < n ==> (#[trigger] settings_identifier_of(entry_identifier(payload, k))) is Some
}

/// `entries` are the first `entries.len()` entries of the payload.
pub open spec fn entries_hold(entries: Seq<Http2SettingsEntry>, payload: Seq<u8>) -> bool {
    forall|k: int|
        0 <= k < entries.len() ==> settings_identifier_of(entry_identifier(payload, k)) == Some(
            (#[trigger] entries[k]).identifier,
        ) && entries[k].value as nat == entry_value(payload, k)
}

/// The result of reading a SETTINGS frame: an ACK has no payload, the
/// payload is a run of six-byte entries, and each entry names a defined
/// setting.
pub open spec fn settings_frame_result(flags: u8, payload: Seq<u8>, r: Result<Http2InnerFrame, &'static str>) -> bool {
    if has_bit(flags, 0x1) && payload.len() > 0 {
        r == Err::<Http2InnerFrame, &'static str>(
            "Settings frame with ACK flag must have empty payload",
        )
    } else if payload.len() % 6 != 0 {
        r == Err::<Http2InnerFrame, &'static str>("Settings frame payload must be multiple of 6 bytes")
    } else if !entries_defined(payload, (payload.len() / 6) as int) {
        r == Err::<Http2InnerFrame, &'static str>("Invalid identifier")
    } else {
        r matches Ok(Http2InnerFrame::Settings(s)) && s.flags.flags == flags && s.settings@.len()
            == payload.len() / 6 && entries_hold(s.settings@, payload)
    }
}

pub fn read_settings_frame(flags: u8, msg_payload: &[u8]) -> (r: Result<Http2InnerFrame, &'static str>)
    ensures
        settings_frame_result(flags, msg_payload@, r),
{
    let settings_flags = Http2FrameSettingsFlags::from_u8(flags);
    if settings_flags.get_ack() && msg_payload.len() > 0 {
        return Err("Settings frame with ACK flag must have empty payload");
    }
    if msg_payload.len() % 6 != 0 {
        return Err("Settings frame payload must be multiple of 6 bytes");
    }
    let ghost whole = msg_payload@;
    let mut settings: Vec<Http2SettingsEntry> = Vec::with_capacity(msg_payload.len() / 6);
    let mut remaining: &[u8] = msg_payload;
    while remaining.len() > 0
        invariant
            whole == msg_payload@,
            settings_flags.flags == flags,
            !(has_bit(flags, 0x1) && whole.len() > 0),
            whole.len() % 6 == 0,
            remaining@.len() % 6 == 0,
            remaining@.len() <= whole.len(),
            remaining@ == whole.skip(whole.len() - remaining@.len()),
            6 * settings@.len() == whole.len() - remaining@.len(),
            entries_defined(whole, settings@.len() as int),
            entries_hold(settings@, whole),
        decreases remaining@.len(),
    {
        let ghost k = settings@.len() as int;
        let (identifier, rest) = take_exact(remaining, 2, "Expected 2 bytes for identifier")?;
        proof {
            assert(identifier@ =~= whole.subrange(6 * k, 6 * k + 2));
        }
        let identifier = be_u16(identifier);
        let identifier = match SettingsIdentifier::from_u16(identifier) {
            Ok(id) => id,
            Err(_) => {
                proof {
                    assert(settings_identifier_of(entry_identifier(whole, k)) is None);
                    assert(k < whole.len() / 6);
                    assert(!entries_defined(whole, (whole.len() / 6) as int));
                }
                return Err("Invalid identifier");
            },
        };
        let (value, rest) = take_exact(rest, 4, "Expected 4 bytes for value")?;
        proof {
            assert(value@ =~= whole.subrange(6 * k + 2, 6 * k + 6));
            assert(rest@ =~= whole.skip(6 * k + 6));
        }
        let value = be_u32(value);
        let ghost prev = settings@;
        settings.push(Http2SettingsEntry { identifier, value });
        remaining = rest;
        proof {
            assert forall|j: int| 0 <= j < settings@.len() implies settings_identifier_of(
                entry_identifier(whole, j),
            ) == Some((#[trigger] settings@[j]).identifier) && settings@[j].value as nat
                == entry_value(whole, j) by {
                if j < k {
                    assert(settings@[j] == prev[j]);
                }
            }
        }
    }
    Ok(Http2InnerFrame::Settings(Http2FrameSettings { flags: settings_flags, settings }))
}

} // verus!
