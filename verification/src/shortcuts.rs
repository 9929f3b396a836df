//! The shortcut registry protocol: validation of a modifier list, assembly
//! of the native registration request, interpretation of native outcomes,
//! and the lifecycle model of the OS-held hotkey table.
//!
//! Registration state lives entirely in the OS: the library validates a
//! request and hands the assembled native values to the caller, who issues
//! the one external call and feeds its outcome back. Validation happens
//! entirely before that call, so a caller never observes a partially
//! applied registration.

use vstd::prelude::*;
use vstd::string::StringExecFns;

use crate::json::dec_digits;
use crate::json::push_dec_u64;
use crate::keyboard::Key;
use crate::keyboard::KeyState;
use crate::keyboard::Modifier;
use crate::keyboard::Platform;
use crate::keyboard::max_modifiers;
use crate::keyboard::msg_unsupported_key;
use crate::keyboard::spec_max_modifiers;
use crate::keyboard::spec_platform_bits;
use crate::keyboard::spec_platform_code;
use crate::peripherals::Error;
use crate::peripherals::ErrorCode;
use crate::peripherals::ErrorKind;
use crate::peripherals::INVALID_MODIFIERS_LIST;
use crate::peripherals::UNSUPPORTED_ON_PLATFORM;
use crate::peripherals::is_error;

verus! {

/// One assembled native hotkey registration request: the caller-assigned
/// id, the bitwise OR of the modifiers' native bit values, and the key's
/// native code.
#[derive(Copy, Clone, Debug, PartialEq, Eq, Structural)]
pub struct HotkeyRequest {
    pub id: u16,
    pub modifier_bits: u32,
    pub key_code: u16,
}

/// Every modifier in the list has a native bit value on the platform.
pub open spec fn all_bits_supported(mods: Seq<Modifier>, p: Platform) -> bool {
    forall|i: int| 0 <= i < mods.len() ==> spec_platform_bits(#[trigger] mods[i], p) is Some
}

/// Two positions of the list carry the same native bit value. Duplicate
/// detection is bit-level: two differently-named modifiers collide exactly
/// when their bit values coincide.
pub open spec fn has_duplicate_bits(mods: Seq<Modifier>, p: Platform) -> bool {
    exists|i: int, j: int|
        0 <= i < j < mods.len() && spec_platform_bits(#[trigger] mods[i], p) == spec_platform_bits(
            #[trigger] mods[j],
            p,
        )
}

/// The invariant a modifier list must meet before a registration call is
/// issued: non-empty, shorter than the platform's maximum, every entry with
/// a native bit value, and no two entries sharing one.
pub open spec fn valid_modifiers(mods: Seq<Modifier>, p: Platform) -> bool {
    &&& 0 < mods.len() < spec_max_modifiers(p)
    &&& all_bits_supported(mods, p)
    &&& !has_duplicate_bits(mods, p)
}

/// The bitwise OR of the modifiers' native bit values (entries without one
/// contribute nothing).
pub open spec fn combined_bits(mods: Seq<Modifier>, p: Platform) -> u32
    decreases mods.len(),
{
    if mods.len() == 0 {
        0u32
    } else {
        combined_bits(mods.drop_last(), p) | (match spec_platform_bits(mods.last(), p) {
            Some(b) => b,
            None => 0u32,
        })
    }
}

/// The description of the error rejecting an empty modifier list.
pub open spec fn msg_empty_modifiers() -> Seq<char> {
    "Modifiers list cannot be empty."@
}

/// The description of the error rejecting an over-long modifier list.
pub open spec fn msg_too_many_modifiers(p: Platform) -> Seq<char> {
    "Modifiers list cannot contain more than "@ + dec_digits(spec_max_modifiers(p) as nat)
        + " modifiers."@
}

/// The description of the error rejecting a modifier list with two entries
/// sharing one native bit value.
pub open spec fn msg_duplicate_modifiers() -> Seq<char> {
    "Modifiers list cannot contain duplicates."@
}

/// The description of the error rejecting a modifier list with an entry
/// that has no native bit value on the selected platform.
pub open spec fn msg_unsupported_in_list() -> Seq<char> {
    "Modifiers list contains a modifier without a native bit value on this platform."@
}

/// Validates a modifier list and assembles the native registration request
/// binding `id` to the combined modifier bitmask and the key's native code.
/// No external call is made: on a validation error nothing has happened,
/// and on success the caller issues exactly one native registration call
/// with the returned values, handing its outcome to `native_call_outcome`.
pub fn register_shortcut(id: u16, modifiers: &[Modifier], key: Key, platform: Platform) -> (r:
    Result<HotkeyRequest, Error>)
    ensures
        modifiers@.len() == 0 ==> (r matches Err(e) && is_error(
            e,
            ErrorKind::OSAgnostic,
            INVALID_MODIFIERS_LIST,
            msg_empty_modifiers(),
        )),
        modifiers@.len() >= spec_max_modifiers(platform) ==> (r matches Err(e) && is_error(
            e,
            ErrorKind::OSAgnostic,
            INVALID_MODIFIERS_LIST,
            msg_too_many_modifiers(platform),
        )),
        0 < modifiers@.len() < spec_max_modifiers(platform) && !all_bits_supported(
            modifiers@,
            platform,
        ) ==> (r matches Err(e) && is_error(
            e,
            ErrorKind::OSAgnostic,
            UNSUPPORTED_ON_PLATFORM,
            msg_unsupported_in_list(),
        )),
        0 < modifiers@.len() < spec_max_modifiers(platform) && all_bits_supported(
            modifiers@,
            platform,
        ) && has_duplicate_bits(modifiers@, platform) ==> (r matches Err(e) && is_error(
            e,
            ErrorKind::OSAgnostic,
            INVALID_MODIFIERS_LIST,
            msg_duplicate_modifiers(),
        )),
        valid_modifiers(modifiers@, platform) && spec_platform_code(key, platform) is None ==> (
        r matches Err(e) && is_error(
            e,
            ErrorKind::OSAgnostic,
            UNSUPPORTED_ON_PLATFORM,
            msg_unsupported_key(key),
        )),
        valid_modifiers(modifiers@, platform) ==> (spec_platform_code(key, platform) matches Some(
            code,
        ) ==> r == Ok::<HotkeyRequest, Error>(
            HotkeyRequest {
                id,
                modifier_bits: combined_bits(modifiers@, platform),
                key_code: code,
            },
        )),
{
    let n = modifiers.len();
    if n == 0 {
        return Err(
            Error::new(
                ErrorKind::OSAgnostic,
                ErrorCode(INVALID_MODIFIERS_LIST),
                String::from_str("Modifiers list cannot be empty."),
            ),
        );
    }
    let max = max_modifiers(platform);
    if n >= max {
        let mut d = String::from_str("Modifiers list cannot contain more than ");
        push_dec_u64(&mut d, max as u64);
        d.append(" modifiers.");
        proof {
            assert(d@ =~= msg_too_many_modifiers(platform));
        }
        return Err(Error::new(ErrorKind::OSAgnostic, ErrorCode(INVALID_MODIFIERS_LIST), d));
    }
    let mut bits: Vec<u32> = Vec::new();
    let mut i: usize = 0;
    while i < n
        invariant
            n == modifiers@.len(),
            0 < n < spec_max_modifiers(platform),
            i <= n,
            bits@.len() == i,
            forall|k: int|
                0 <= k < i ==> spec_platform_bits(#[trigger] modifiers@[k], platform) == Some(
                    bits@[k],
                ),
        decreases n - i,
    {
        match modifiers[i].bits_entry(platform) {
            Some(b) => bits.push(b),
            None => {
                return Err(
                    Error::new(
                        ErrorKind::OSAgnostic,
                        ErrorCode(UNSUPPORTED_ON_PLATFORM),
                        String::from_str(
                            "Modifiers list contains a modifier without a native bit value on this platform.",
                        ),
                    ),
                );
            },
        }
        i = i + 1;
    }
    let mut a: usize = 0;
    while a < n
        invariant
            n == modifiers@.len(),
            0 < n < spec_max_modifiers(platform),
            bits@.len() == n,
            a <= n,
            forall|k: int|
                0 <= k < n ==> spec_platform_bits(#[trigger] modifiers@[k], platform) == Some(
                    bits@[k],
                ),
            forall|x: int, y: int|
                0 <= x < y < n && x < a ==> spec_platform_bits(
                    #[trigger] modifiers@[x],
                    platform,
                ) != spec_platform_bits(#[trigger] modifiers@[y], platform),
        decreases n - a,
    {
        let mut b: usize = a + 1;
        while b < n
            invariant
                n == modifiers@.len(),
                0 < n < spec_max_modifiers(platform),
                bits@.len() == n,
                a < n,
                a + 1 <= b <= n,
                forall|k: int|
                    0 <= k < n ==> spec_platform_bits(#[trigger] modifiers@[k], platform) == Some(
                        bits@[k],
                    ),
                forall|y: int|
                    a < y < b ==> spec_platform_bits(modifiers@[a as int], platform)
                        != spec_platform_bits(#[trigger] modifiers@[y], platform),
            decreases n - b,
        {
            if bits[a] == bits[b] {
                proof {
                    assert(spec_platform_bits(modifiers@[a as int], platform) == spec_platform_bits(
                        modifiers@[b as int],
                        platform,
                    ));
                    assert(has_duplicate_bits(modifiers@, platform));
                }
                return Err(
                    Error::new(
                        ErrorKind::OSAgnostic,
                        ErrorCode(INVALID_MODIFIERS_LIST),
                        String::from_str("Modifiers list cannot contain duplicates."),
                    ),
                );
            }
            b = b + 1;
        }
        a = a + 1;
    }
    let mut combined: u32 = 0;
    let mut i: usize = 0;
    while i < n
        invariant
            n == modifiers@.len(),
            0 < n < spec_max_modifiers(platform),
            bits@.len() == n,
            i <= n,
            forall|k: int|
                0 <= k < n ==> spec_platform_bits(#[trigger] modifiers@[k], platform) == Some(
                    bits@[k],
                ),
            combined == combined_bits(modifiers@.subrange(0, i as int), platform),
        decreases n - i,
    {
        combined = combined | bits[i];
        proof {
            assert(modifiers@.subrange(0, i + 1 as int).drop_last() =~= modifiers@.subrange(
                0,
                i as int,
            ));
            assert(modifiers@.subrange(0, i + 1 as int).last() == modifiers@[i as int]);
        }
        i = i + 1;
    }
    proof {
        assert(modifiers@.subrange(0, n as int) =~= modifiers@);
    }
    let code = match key.platform_code(platform) {
        Ok(code) => code,
        Err(e) => {
            return Err(e);
        },
    };
    Ok(HotkeyRequest { id, modifier_bits: combined, key_code: code })
}

/// Wraps the outcome of a native registration or unregistration call: a
/// failure carries the native error code and message verbatim, as an
/// OS-specific error.
pub fn native_call_outcome(failure: Option<(i32, String)>) -> (r: Result<(), Error>)
    ensures
        failure is None <==> r is Ok,
        failure matches Some(f) ==> (r matches Err(e) && is_error(
            e,
            ErrorKind::OSSpecific,
            f.0,
            f.1@,
        )),
{
    match failure {
        None => Ok(()),
        Some((code, description)) => Err(
            Error::new(ErrorKind::OSSpecific, ErrorCode(code), description),
        ),
    }
}

/// Completes an unregistration of the hotkey `id`: the caller issues the
/// one native unregistration call for `id` and hands its outcome in, and a
/// native failure is wrapped verbatim as an OS-specific error. The library
/// tracks no registration state of its own, so nothing else is checked:
/// what unregistering an id that was never registered does is whatever the
/// OS reported.
pub fn unregister_shortcut(_id: u16, native_failure: Option<(i32, String)>) -> (r: Result<
    (),
    Error,
>)
    ensures
        native_failure is None <==> r is Ok,
        native_failure matches Some(f) ==> (r matches Err(e) && is_error(
            e,
            ErrorKind::OSSpecific,
            f.0,
            f.1@,
        )),
{
    native_call_outcome(native_failure)
}

/// Interprets the native message-poll outcome for the hotkey `id`:
/// `notification` carries the target id of the drained notification, or
/// `None` where no notification was delivered or the platform capability is
/// absent. The hotkey reads as `Down` exactly when the notification targets
/// `id`; every other outcome, including capability absence, reads as `Up`.
pub fn shortcut_state(id: u16, notification: Option<usize>) -> (r: Result<KeyState, Error>)
    ensures
        r matches Ok(s) && (s == KeyState::Down <==> notification == Some(id as usize)),
{
    let matched = match notification {
        Some(target) => target == id as usize,
        None => false,
    };
    if matched {
        Ok(KeyState::Down)
    } else {
        Ok(KeyState::Up)
    }
}

/// The OS-held hotkey table after a successful registration call: the
/// request is active under its id.
pub open spec fn os_after_register(table: Map<u16, HotkeyRequest>, r: HotkeyRequest) -> Map<
    u16,
    HotkeyRequest,
> {
    table.insert(r.id, r)
}

/// The OS-held hotkey table after a successful unregistration call: no
/// hotkey is active under the id.
pub open spec fn os_after_unregister(table: Map<u16, HotkeyRequest>, id: u16) -> Map<
    u16,
    HotkeyRequest,
> {
    table.remove(id)
}

/// Registering a hotkey and then unregistering the same id leaves the OS
/// with no active hotkey for that id, whatever the table held before.
pub proof fn lemma_register_then_unregister(table: Map<u16, HotkeyRequest>, r: HotkeyRequest)
    ensures
        !os_after_unregister(os_after_register(table, r), r.id).dom().contains(r.id),
{
}

} // verus!
